//! What the unification pass does at each kind of node, stated over the
//! node's own fields: the type it holds afterwards, what becomes of each
//! part, and the messages reported for it, in order.
use vstd::prelude::*;
use crate::expr::{ArmPattern, CallType, Expr, MatchArm};
use crate::semantics::{
    arms_errors, expr_errors, pattern_errors, rev_errors, rev_field_errors,
    rev_field_pattern_errors, rev_pattern_errors, unified_pattern_to, unified_to, Renderer,
    Unifier,
};

verus! {

/// The type a node holds after the pass when the pass unifies it: the
/// unified type if there is one, the old type otherwise.
pub open spec fn unified_or_kept<T>(t: T, u: Unifier<T>) -> T {
    match u(t) {
        Ok(t2) => t2,
        Err(_) => t,
    }
}

/// The message reported for a node whose type `t` is unified: none if `t`
/// unifies, else one that names the kind of node, shows it, and gives the
/// reason.
pub open spec fn failure_message<T>(t: T, u: Unifier<T>, label: Seq<char>, shown: Seq<char>) -> Seq<
    Seq<char>,
> {
    match u(t) {
        Ok(_) => Seq::empty(),
        Err(reason) => seq!["unable to infer the type of "@ + label + shown + ", "@ + reason],
    }
}

/// A number node takes the unified type; a failure is reported with the node's text.
pub proof fn law_number<T>(old: Expr<T>, new: Expr<T>, u: Unifier<T>, r: Renderer<T>)
    requires
        unified_to(old, new, u),
        old is Number,
    ensures
        ({
            &&& old matches Expr::Number { number, inferred_type }
            &&& new matches Expr::Number { number: x2, inferred_type: t2 }
            &&& x2 == number
            &&& t2 == unified_or_kept(inferred_type, u)
            &&& expr_errors(old, u, r) == failure_message(inferred_type, u, ""@, r(old))
        }),
{
}

/// A literal node takes the unified type; a failure is reported with the node's text.
pub proof fn law_literal<T>(old: Expr<T>, new: Expr<T>, u: Unifier<T>, r: Renderer<T>)
    requires
        unified_to(old, new, u),
        old is Literal,
    ensures
        ({
            &&& old matches Expr::Literal { value, inferred_type }
            &&& new matches Expr::Literal { value: x2, inferred_type: t2 }
            &&& x2 == value
            &&& t2 == unified_or_kept(inferred_type, u)
            &&& expr_errors(old, u, r) == failure_message(inferred_type, u, ""@, r(old))
        }),
{
}

/// A flags node takes the unified type; a failure is reported with the node's text.
pub proof fn law_flags<T>(old: Expr<T>, new: Expr<T>, u: Unifier<T>, r: Renderer<T>)
    requires
        unified_to(old, new, u),
        old is Flags,
    ensures
        ({
            &&& old matches Expr::Flags { flags, inferred_type }
            &&& new matches Expr::Flags { flags: x2, inferred_type: t2 }
            &&& x2 == flags
            &&& t2 == unified_or_kept(inferred_type, u)
            &&& expr_errors(old, u, r) == failure_message(inferred_type, u, "flags "@, r(old))
        }),
{
}

/// A identifier node takes the unified type; a failure is reported with the node's text.
pub proof fn law_identifier<T>(old: Expr<T>, new: Expr<T>, u: Unifier<T>, r: Renderer<T>)
    requires
        unified_to(old, new, u),
        old is Identifier,
    ensures
        ({
            &&& old matches Expr::Identifier { variable_id, inferred_type }
            &&& new matches Expr::Identifier { variable_id: x2, inferred_type: t2 }
            &&& x2 == variable_id
            &&& t2 == unified_or_kept(inferred_type, u)
            &&& expr_errors(old, u, r) == failure_message(inferred_type, u, ""@, r(old))
        }),
{
}

/// A throw node takes the unified type; a failure is reported with the node's text.
pub proof fn law_throw<T>(old: Expr<T>, new: Expr<T>, u: Unifier<T>, r: Renderer<T>)
    requires
        unified_to(old, new, u),
        old is Throw,
    ensures
        ({
            &&& old matches Expr::Throw { message, inferred_type }
            &&& new matches Expr::Throw { message: x2, inferred_type: t2 }
            &&& x2 == message
            &&& t2 == unified_or_kept(inferred_type, u)
            &&& expr_errors(old, u, r) == failure_message(inferred_type, u, ""@, r(old))
        }),
{
}

/// Reading a tag unifies the node's own type; the expression it reads is not visited.
pub proof fn law_get_tag<T>(old: Expr<T>, new: Expr<T>, u: Unifier<T>, r: Renderer<T>)
    requires
        unified_to(old, new, u),
        old is GetTag,
    ensures
        ({
            &&& old matches Expr::GetTag { expr, inferred_type }
            &&& new matches Expr::GetTag { expr: e2, inferred_type: t2 }
            &&& e2 == expr
            &&& t2 == unified_or_kept(inferred_type, u)
            &&& expr_errors(old, u, r) == failure_message(inferred_type, u, ""@, r(old))
        }),
{
}

/// A boolean keeps its type and reports nothing.
pub proof fn law_boolean<T>(old: Expr<T>, new: Expr<T>, u: Unifier<T>, r: Renderer<T>)
    requires
        unified_to(old, new, u),
        old is Boolean,
    ensures
        ({
            &&& old matches Expr::Boolean { value, inferred_type }
            &&& new matches Expr::Boolean { value: v2, inferred_type: t2 }
            &&& v2 == value
            &&& t2 == inferred_type
            &&& expr_errors(old, u, r) == Seq::<Seq<char>>::empty()
        }),
{
}

/// A lazy method call is left as it is and reports nothing.
pub proof fn law_invoke_method_lazy<T>(old: Expr<T>, new: Expr<T>, u: Unifier<T>, r: Renderer<T>)
    requires
        unified_to(old, new, u),
        old is InvokeMethodLazy,
    ensures
        ({
            &&& old matches Expr::InvokeMethodLazy { lhs, method, args, inferred_type }
            &&& new matches Expr::InvokeMethodLazy { lhs: l2, method: m2, args: a2, inferred_type: t2 }
            &&& l2 == lhs && m2 == method && a2 == args && t2 == inferred_type
            &&& expr_errors(old, u, r) == Seq::<Seq<char>>::empty()
        }),
{
}

/// The node takes the unified type; the expression inside is unified too, and its messages follow the node's own.
pub proof fn law_selectfield<T>(old: Expr<T>, new: Expr<T>, u: Unifier<T>, r: Renderer<T>)
    requires
        unified_to(old, new, u),
        old is SelectField,
    ensures
        ({
            &&& old matches Expr::SelectField { expr, field, inferred_type }
            &&& new matches Expr::SelectField { expr: e2, field: x2, inferred_type: t2 }
            &&& x2 == field
            &&& t2 == unified_or_kept(inferred_type, u)
            &&& unified_to(*expr, *e2, u)
            &&& expr_errors(old, u, r) == failure_message(inferred_type, u, "field selection "@, r(old)) + expr_errors(*expr, u, r)
        }),
{
}

/// The node takes the unified type; the expression inside is unified too, and its messages follow the node's own.
pub proof fn law_selectindex<T>(old: Expr<T>, new: Expr<T>, u: Unifier<T>, r: Renderer<T>)
    requires
        unified_to(old, new, u),
        old is SelectIndex,
    ensures
        ({
            &&& old matches Expr::SelectIndex { expr, index, inferred_type }
            &&& new matches Expr::SelectIndex { expr: e2, index: x2, inferred_type: t2 }
            &&& x2 == index
            &&& t2 == unified_or_kept(inferred_type, u)
            &&& unified_to(*expr, *e2, u)
            &&& expr_errors(old, u, r) == failure_message(inferred_type, u, "index selection "@, r(old)) + expr_errors(*expr, u, r)
        }),
{
}

/// The node takes the unified type; the expression inside is unified too, and its messages follow the node's own.
pub proof fn law_not<T>(old: Expr<T>, new: Expr<T>, u: Unifier<T>, r: Renderer<T>)
    requires
        unified_to(old, new, u),
        old is Not,
    ensures
        ({
            &&& old matches Expr::Not { expr, inferred_type }
            &&& new matches Expr::Not { expr: e2, inferred_type: t2 }
            &&& t2 == unified_or_kept(inferred_type, u)
            &&& unified_to(*expr, *e2, u)
            &&& expr_errors(old, u, r) == failure_message(inferred_type, u, ""@, r(old)) + expr_errors(*expr, u, r)
        }),
{
}

/// The node takes the unified type; the expression inside is unified too, and its messages follow the node's own.
pub proof fn law_unwrap<T>(old: Expr<T>, new: Expr<T>, u: Unifier<T>, r: Renderer<T>)
    requires
        unified_to(old, new, u),
        old is Unwrap,
    ensures
        ({
            &&& old matches Expr::Unwrap { expr, inferred_type }
            &&& new matches Expr::Unwrap { expr: e2, inferred_type: t2 }
            &&& t2 == unified_or_kept(inferred_type, u)
            &&& unified_to(*expr, *e2, u)
            &&& expr_errors(old, u, r) == failure_message(inferred_type, u, ""@, r(old)) + expr_errors(*expr, u, r)
        }),
{
}

/// A binding keeps its own type; the bound expression is unified and its messages are all that is reported.
pub proof fn law_let<T>(old: Expr<T>, new: Expr<T>, u: Unifier<T>, r: Renderer<T>)
    requires
        unified_to(old, new, u),
        old is Let,
    ensures
        ({
            &&& old matches Expr::Let { variable_id, expr, inferred_type }
            &&& new matches Expr::Let { variable_id: v2, expr: e2, inferred_type: t2 }
            &&& v2 == variable_id
            &&& t2 == inferred_type
            &&& unified_to(*expr, *e2, u)
            &&& expr_errors(old, u, r) == expr_errors(*expr, u, r)
        }),
{
}

/// `some(..)` takes the unified type, and so does the value it wraps; the value's messages follow its own.
pub proof fn law_some<T>(old: Expr<T>, new: Expr<T>, u: Unifier<T>, r: Renderer<T>)
    requires
        unified_to(old, new, u),
        old matches Expr::Option { expr: Some(_), .. },
    ensures
        ({
            &&& old matches Expr::Option { expr: Some(inner), inferred_type }
            &&& new matches Expr::Option { expr: Some(i2), inferred_type: t2 }
            &&& t2 == unified_or_kept(inferred_type, u)
            &&& unified_to(*inner, *i2, u)
            &&& expr_errors(old, u, r) == failure_message(inferred_type, u, "option "@, r(old)) + expr_errors(*inner, u, r)
        }),
{
}

/// `ok(..)` takes the unified type, and so does the value it wraps; the value's messages follow its own.
pub proof fn law_ok<T>(old: Expr<T>, new: Expr<T>, u: Unifier<T>, r: Renderer<T>)
    requires
        unified_to(old, new, u),
        old matches Expr::Result { expr: Ok(_), .. },
    ensures
        ({
            &&& old matches Expr::Result { expr: Ok(inner), inferred_type }
            &&& new matches Expr::Result { expr: Ok(i2), inferred_type: t2 }
            &&& t2 == unified_or_kept(inferred_type, u)
            &&& unified_to(*inner, *i2, u)
            &&& expr_errors(old, u, r) == failure_message(inferred_type, u, "`result::ok` "@, r(old)) + expr_errors(*inner, u, r)
        }),
{
}

/// `err(..)` takes the unified type, and so does the value it wraps; the value's messages follow its own.
pub proof fn law_err<T>(old: Expr<T>, new: Expr<T>, u: Unifier<T>, r: Renderer<T>)
    requires
        unified_to(old, new, u),
        old matches Expr::Result { expr: Err(_), .. },
    ensures
        ({
            &&& old matches Expr::Result { expr: Err(inner), inferred_type }
            &&& new matches Expr::Result { expr: Err(i2), inferred_type: t2 }
            &&& t2 == unified_or_kept(inferred_type, u)
            &&& unified_to(*inner, *i2, u)
            &&& expr_errors(old, u, r) == failure_message(inferred_type, u, "`result::err` "@, r(old)) + expr_errors(*inner, u, r)
        }),
{
}

/// `none` takes the unified type.
pub proof fn law_none<T>(old: Expr<T>, new: Expr<T>, u: Unifier<T>, r: Renderer<T>)
    requires
        unified_to(old, new, u),
        old matches Expr::Option { expr: None, .. },
    ensures
        ({
            &&& old matches Expr::Option { expr: None, inferred_type }
            &&& new matches Expr::Option { expr: None, inferred_type: t2 }
            &&& t2 == unified_or_kept(inferred_type, u)
            &&& expr_errors(old, u, r) == failure_message(inferred_type, u, "option "@, r(old))
        }),
{
}

/// An arithmetic operation takes the unified type; both operands are unified, and the right one's messages come before the left one's, after the operation's own.
pub proof fn law_plus<T>(old: Expr<T>, new: Expr<T>, u: Unifier<T>, r: Renderer<T>)
    requires
        unified_to(old, new, u),
        old is Plus,
    ensures
        ({
            &&& old matches Expr::Plus { lhs, rhs, inferred_type }
            &&& new matches Expr::Plus { lhs: l2, rhs: r2, inferred_type: t2 }
            &&& t2 == unified_or_kept(inferred_type, u)
            &&& unified_to(*lhs, *l2, u) && unified_to(*rhs, *r2, u)
            &&& expr_errors(old, u, r) == failure_message(inferred_type, u, ""@, r(old)) + expr_errors(*rhs, u, r) + expr_errors(*lhs, u, r)
        }),
{
}

/// An arithmetic operation takes the unified type; both operands are unified, and the right one's messages come before the left one's, after the operation's own.
pub proof fn law_minus<T>(old: Expr<T>, new: Expr<T>, u: Unifier<T>, r: Renderer<T>)
    requires
        unified_to(old, new, u),
        old is Minus,
    ensures
        ({
            &&& old matches Expr::Minus { lhs, rhs, inferred_type }
            &&& new matches Expr::Minus { lhs: l2, rhs: r2, inferred_type: t2 }
            &&& t2 == unified_or_kept(inferred_type, u)
            &&& unified_to(*lhs, *l2, u) && unified_to(*rhs, *r2, u)
            &&& expr_errors(old, u, r) == failure_message(inferred_type, u, ""@, r(old)) + expr_errors(*rhs, u, r) + expr_errors(*lhs, u, r)
        }),
{
}

/// An arithmetic operation takes the unified type; both operands are unified, and the right one's messages come before the left one's, after the operation's own.
pub proof fn law_multiply<T>(old: Expr<T>, new: Expr<T>, u: Unifier<T>, r: Renderer<T>)
    requires
        unified_to(old, new, u),
        old is Multiply,
    ensures
        ({
            &&& old matches Expr::Multiply { lhs, rhs, inferred_type }
            &&& new matches Expr::Multiply { lhs: l2, rhs: r2, inferred_type: t2 }
            &&& t2 == unified_or_kept(inferred_type, u)
            &&& unified_to(*lhs, *l2, u) && unified_to(*rhs, *r2, u)
            &&& expr_errors(old, u, r) == failure_message(inferred_type, u, ""@, r(old)) + expr_errors(*rhs, u, r) + expr_errors(*lhs, u, r)
        }),
{
}

/// An arithmetic operation takes the unified type; both operands are unified, and the right one's messages come before the left one's, after the operation's own.
pub proof fn law_divide<T>(old: Expr<T>, new: Expr<T>, u: Unifier<T>, r: Renderer<T>)
    requires
        unified_to(old, new, u),
        old is Divide,
    ensures
        ({
            &&& old matches Expr::Divide { lhs, rhs, inferred_type }
            &&& new matches Expr::Divide { lhs: l2, rhs: r2, inferred_type: t2 }
            &&& t2 == unified_or_kept(inferred_type, u)
            &&& unified_to(*lhs, *l2, u) && unified_to(*rhs, *r2, u)
            &&& expr_errors(old, u, r) == failure_message(inferred_type, u, ""@, r(old)) + expr_errors(*rhs, u, r) + expr_errors(*lhs, u, r)
        }),
{
}

/// A comparison or logical operation keeps its own type; both operands are unified, the right one's messages first.
pub proof fn law_greater_than<T>(old: Expr<T>, new: Expr<T>, u: Unifier<T>, r: Renderer<T>)
    requires
        unified_to(old, new, u),
        old is GreaterThan,
    ensures
        ({
            &&& old matches Expr::GreaterThan { lhs, rhs, inferred_type }
            &&& new matches Expr::GreaterThan { lhs: l2, rhs: r2, inferred_type: t2 }
            &&& t2 == inferred_type
            &&& unified_to(*lhs, *l2, u) && unified_to(*rhs, *r2, u)
            &&& expr_errors(old, u, r) == expr_errors(*rhs, u, r) + expr_errors(*lhs, u, r)
        }),
{
}

/// A comparison or logical operation keeps its own type; both operands are unified, the right one's messages first.
pub proof fn law_greater_than_or_equal_to<T>(old: Expr<T>, new: Expr<T>, u: Unifier<T>, r: Renderer<T>)
    requires
        unified_to(old, new, u),
        old is GreaterThanOrEqualTo,
    ensures
        ({
            &&& old matches Expr::GreaterThanOrEqualTo { lhs, rhs, inferred_type }
            &&& new matches Expr::GreaterThanOrEqualTo { lhs: l2, rhs: r2, inferred_type: t2 }
            &&& t2 == inferred_type
            &&& unified_to(*lhs, *l2, u) && unified_to(*rhs, *r2, u)
            &&& expr_errors(old, u, r) == expr_errors(*rhs, u, r) + expr_errors(*lhs, u, r)
        }),
{
}

/// A comparison or logical operation keeps its own type; both operands are unified, the right one's messages first.
pub proof fn law_less_than_or_equal_to<T>(old: Expr<T>, new: Expr<T>, u: Unifier<T>, r: Renderer<T>)
    requires
        unified_to(old, new, u),
        old is LessThanOrEqualTo,
    ensures
        ({
            &&& old matches Expr::LessThanOrEqualTo { lhs, rhs, inferred_type }
            &&& new matches Expr::LessThanOrEqualTo { lhs: l2, rhs: r2, inferred_type: t2 }
            &&& t2 == inferred_type
            &&& unified_to(*lhs, *l2, u) && unified_to(*rhs, *r2, u)
            &&& expr_errors(old, u, r) == expr_errors(*rhs, u, r) + expr_errors(*lhs, u, r)
        }),
{
}

/// A comparison or logical operation keeps its own type; both operands are unified, the right one's messages first.
pub proof fn law_less_than<T>(old: Expr<T>, new: Expr<T>, u: Unifier<T>, r: Renderer<T>)
    requires
        unified_to(old, new, u),
        old is LessThan,
    ensures
        ({
            &&& old matches Expr::LessThan { lhs, rhs, inferred_type }
            &&& new matches Expr::LessThan { lhs: l2, rhs: r2, inferred_type: t2 }
            &&& t2 == inferred_type
            &&& unified_to(*lhs, *l2, u) && unified_to(*rhs, *r2, u)
            &&& expr_errors(old, u, r) == expr_errors(*rhs, u, r) + expr_errors(*lhs, u, r)
        }),
{
}

/// A comparison or logical operation keeps its own type; both operands are unified, the right one's messages first.
pub proof fn law_equal_to<T>(old: Expr<T>, new: Expr<T>, u: Unifier<T>, r: Renderer<T>)
    requires
        unified_to(old, new, u),
        old is EqualTo,
    ensures
        ({
            &&& old matches Expr::EqualTo { lhs, rhs, inferred_type }
            &&& new matches Expr::EqualTo { lhs: l2, rhs: r2, inferred_type: t2 }
            &&& t2 == inferred_type
            &&& unified_to(*lhs, *l2, u) && unified_to(*rhs, *r2, u)
            &&& expr_errors(old, u, r) == expr_errors(*rhs, u, r) + expr_errors(*lhs, u, r)
        }),
{
}

/// A comparison or logical operation keeps its own type; both operands are unified, the right one's messages first.
pub proof fn law_and<T>(old: Expr<T>, new: Expr<T>, u: Unifier<T>, r: Renderer<T>)
    requires
        unified_to(old, new, u),
        old is And,
    ensures
        ({
            &&& old matches Expr::And { lhs, rhs, inferred_type }
            &&& new matches Expr::And { lhs: l2, rhs: r2, inferred_type: t2 }
            &&& t2 == inferred_type
            &&& unified_to(*lhs, *l2, u) && unified_to(*rhs, *r2, u)
            &&& expr_errors(old, u, r) == expr_errors(*rhs, u, r) + expr_errors(*lhs, u, r)
        }),
{
}

/// A comparison or logical operation keeps its own type; both operands are unified, the right one's messages first.
pub proof fn law_or<T>(old: Expr<T>, new: Expr<T>, u: Unifier<T>, r: Renderer<T>)
    requires
        unified_to(old, new, u),
        old is Or,
    ensures
        ({
            &&& old matches Expr::Or { lhs, rhs, inferred_type }
            &&& new matches Expr::Or { lhs: l2, rhs: r2, inferred_type: t2 }
            &&& t2 == inferred_type
            &&& unified_to(*lhs, *l2, u) && unified_to(*rhs, *r2, u)
            &&& expr_errors(old, u, r) == expr_errors(*rhs, u, r) + expr_errors(*lhs, u, r)
        }),
{
}

/// A conditional takes the unified type; its branches and condition are unified, reported in the order else, then, condition.
pub proof fn law_cond<T>(old: Expr<T>, new: Expr<T>, u: Unifier<T>, r: Renderer<T>)
    requires
        unified_to(old, new, u),
        old is Cond,
    ensures
        ({
            &&& old matches Expr::Cond { cond, lhs, rhs, inferred_type }
            &&& new matches Expr::Cond { cond: c2, lhs: l2, rhs: r2, inferred_type: t2 }
            &&& t2 == unified_or_kept(inferred_type, u)
            &&& unified_to(*cond, *c2, u) && unified_to(*lhs, *l2, u) && unified_to(*rhs, *r2, u)
            &&& expr_errors(old, u, r) == failure_message(inferred_type, u, "condition expression "@, r(old)) + expr_errors(*rhs, u, r) + expr_errors(*lhs, u, r) + expr_errors(*cond, u, r)
        }),
{
}

/// A list comprehension takes the unified type; the yielded expression and then the iterable are unified and reported.
pub proof fn law_list_comprehension<T>(old: Expr<T>, new: Expr<T>, u: Unifier<T>, r: Renderer<T>)
    requires
        unified_to(old, new, u),
        old is ListComprehension,
    ensures
        ({
            &&& old matches Expr::ListComprehension { iterated_variable, iterable_expr, yield_expr, inferred_type }
            &&& new matches Expr::ListComprehension { iterated_variable: v2, iterable_expr: i2, yield_expr: y2, inferred_type: t2 }
            &&& v2 == iterated_variable
            &&& t2 == unified_or_kept(inferred_type, u)
            &&& unified_to(*iterable_expr, *i2, u) && unified_to(*yield_expr, *y2, u)
            &&& expr_errors(old, u, r) == failure_message(inferred_type, u, "list comprehension "@, r(old)) + expr_errors(*yield_expr, u, r) + expr_errors(*iterable_expr, u, r)
        }),
{
}

/// A list aggregation takes the unified type; the yielded expression, the initial value and the iterable are unified and reported in that order.
pub proof fn law_list_reduce<T>(old: Expr<T>, new: Expr<T>, u: Unifier<T>, r: Renderer<T>)
    requires
        unified_to(old, new, u),
        old is ListReduce,
    ensures
        ({
            &&& old matches Expr::ListReduce { reduce_variable, iterated_variable, iterable_expr, init_value_expr, yield_expr, inferred_type }
            &&& new matches Expr::ListReduce { reduce_variable: d2, iterated_variable: v2, iterable_expr: i2, init_value_expr: n2, yield_expr: y2, inferred_type: t2 }
            &&& d2 == reduce_variable && v2 == iterated_variable
            &&& t2 == unified_or_kept(inferred_type, u)
            &&& unified_to(*iterable_expr, *i2, u) && unified_to(*init_value_expr, *n2, u) && unified_to(*yield_expr, *y2, u)
            &&& expr_errors(old, u, r) == failure_message(inferred_type, u, "list aggregation "@, r(old)) + expr_errors(*yield_expr, u, r) + expr_errors(*init_value_expr, u, r) + expr_errors(*iterable_expr, u, r)
        }),
{
}

/// A sequence takes the unified type; its elements are unified, and their messages follow its own, last element first.
pub proof fn law_sequence<T>(old: Expr<T>, new: Expr<T>, u: Unifier<T>, r: Renderer<T>)
    requires
        unified_to(old, new, u),
        old is Sequence,
    ensures
        ({
            &&& old matches Expr::Sequence { exprs, inferred_type }
            &&& new matches Expr::Sequence { exprs: x2, inferred_type: t2 }
            &&& x2@.len() == exprs@.len()
            &&& forall|i: int| 0 <= i < exprs@.len() ==> unified_to(#[trigger] exprs@[i], x2@[i], u)
            &&& t2 == unified_or_kept(inferred_type, u)
            &&& expr_errors(old, u, r) == failure_message(inferred_type, u, "sequence "@, r(old)) + rev_errors(exprs@, u, r)
        }),
{
}

/// A tuple takes the unified type; its elements are unified, and their messages follow its own, last element first.
pub proof fn law_tuple<T>(old: Expr<T>, new: Expr<T>, u: Unifier<T>, r: Renderer<T>)
    requires
        unified_to(old, new, u),
        old is Tuple,
    ensures
        ({
            &&& old matches Expr::Tuple { exprs, inferred_type }
            &&& new matches Expr::Tuple { exprs: x2, inferred_type: t2 }
            &&& x2@.len() == exprs@.len()
            &&& forall|i: int| 0 <= i < exprs@.len() ==> unified_to(#[trigger] exprs@[i], x2@[i], u)
            &&& t2 == unified_or_kept(inferred_type, u)
            &&& expr_errors(old, u, r) == failure_message(inferred_type, u, "tuple "@, r(old)) + rev_errors(exprs@, u, r)
        }),
{
}

/// A concatenation keeps its type; its parts are unified and reported, last part first.
pub proof fn law_concat<T>(old: Expr<T>, new: Expr<T>, u: Unifier<T>, r: Renderer<T>)
    requires
        unified_to(old, new, u),
        old is Concat,
    ensures
        ({
            &&& old matches Expr::Concat { exprs, inferred_type }
            &&& new matches Expr::Concat { exprs: x2, inferred_type: t2 }
            &&& x2@.len() == exprs@.len()
            &&& forall|i: int| 0 <= i < exprs@.len() ==> unified_to(#[trigger] exprs@[i], x2@[i], u)
            &&& t2 == inferred_type
            &&& expr_errors(old, u, r) == rev_errors(exprs@, u, r)
        }),
{
}

/// A block takes the unified type but reports no failure of its own; its expressions are unified and reported, last first.
pub proof fn law_expr_block<T>(old: Expr<T>, new: Expr<T>, u: Unifier<T>, r: Renderer<T>)
    requires
        unified_to(old, new, u),
        old is ExprBlock,
    ensures
        ({
            &&& old matches Expr::ExprBlock { exprs, inferred_type }
            &&& new matches Expr::ExprBlock { exprs: x2, inferred_type: t2 }
            &&& x2@.len() == exprs@.len()
            &&& forall|i: int| 0 <= i < exprs@.len() ==> unified_to(#[trigger] exprs@[i], x2@[i], u)
            &&& t2 == unified_or_kept(inferred_type, u)
            &&& expr_errors(old, u, r) == rev_errors(exprs@, u, r)
        }),
{
}

/// A record takes the unified type; its field values are unified, and their messages follow its own, last field first.
pub proof fn law_record<T>(old: Expr<T>, new: Expr<T>, u: Unifier<T>, r: Renderer<T>)
    requires
        unified_to(old, new, u),
        old is Record,
    ensures
        ({
            &&& old matches Expr::Record { exprs, inferred_type }
            &&& new matches Expr::Record { exprs: x2, inferred_type: t2 }
            &&& x2@.len() == exprs@.len()
            &&& forall|i: int| 0 <= i < exprs@.len() ==> x2@[i].0 == (#[trigger] exprs@[i]).0 && unified_to(*exprs@[i].1, *x2@[i].1, u)
            &&& t2 == unified_or_kept(inferred_type, u)
            &&& expr_errors(old, u, r) == failure_message(inferred_type, u, "record "@, r(old)) + rev_field_errors(exprs@, u, r)
        }),
{
}

/// A pattern match takes the unified type; each arm's resolution and pattern are unified, arms reported first to last, then the predicate.
pub proof fn law_pattern_match<T>(old: Expr<T>, new: Expr<T>, u: Unifier<T>, r: Renderer<T>)
    requires
        unified_to(old, new, u),
        old is PatternMatch,
    ensures
        ({
            &&& old matches Expr::PatternMatch { predicate, match_arms, inferred_type }
            &&& new matches Expr::PatternMatch { predicate: p2, match_arms: a2, inferred_type: t2 }
            &&& t2 == unified_or_kept(inferred_type, u)
            &&& unified_to(*predicate, *p2, u)
            &&& a2@.len() == match_arms@.len()
            &&& forall|i: int| 0 <= i < match_arms@.len() ==> unified_pattern_to((#[trigger] match_arms@[i]).arm_pattern, a2@[i].arm_pattern, u) && unified_to(*match_arms@[i].arm_resolution_expr, *a2@[i].arm_resolution_expr, u)
            &&& expr_errors(old, u, r) == failure_message(inferred_type, u, "pattern match expression "@, r(old)) + arms_errors(match_arms@, u, r) + expr_errors(*predicate, u, r)
        }),
{
}

/// A call of a function, with or without a worker, takes the unified type;
/// a failure is reported under the function's name. The worker expression,
/// if any, is unified and reported next, then the arguments, last first.
pub proof fn law_function_call<T>(old: Expr<T>, new: Expr<T>, u: Unifier<T>, r: Renderer<T>)
    requires
        unified_to(old, new, u),
        old matches Expr::Call { call_type: CallType::Function { .. }, .. },
    ensures
        ({
            &&& old matches Expr::Call {
                call_type: CallType::Function { worker, function_name },
                args,
                inferred_type,
            }
            &&& new matches Expr::Call {
                call_type: CallType::Function { worker: w2, function_name: f2 },
                args: x2,
                inferred_type: t2,
            }
            &&& f2 == function_name
            &&& t2 == unified_or_kept(inferred_type, u)
            &&& x2@.len() == args@.len()
            &&& forall|i: int| 0 <= i < args@.len() ==> unified_to(#[trigger] args@[i], x2@[i], u)
            &&& worker is None ==> w2 is None
            &&& worker matches Some(w) ==> (w2 matches Some(w3) && unified_to(*w, *w3, u))
            &&& expr_errors(old, u, r) == failure_message(
                inferred_type,
                u,
                "function return "@,
                function_name@,
            ) + match worker {
                Some(w) => expr_errors(*w, u, r),
                None => Seq::<Seq<char>>::empty(),
            } + rev_errors(args@, u, r)
        }),
{
}

/// A call of a variant or enum constructor takes the unified type; a failure
/// is reported under the constructor's name, then the arguments, last first.
pub proof fn law_constructor_call<T>(old: Expr<T>, new: Expr<T>, u: Unifier<T>, r: Renderer<T>)
    requires
        unified_to(old, new, u),
        old matches Expr::Call { call_type: CallType::VariantConstructor(_), .. }
            || old matches Expr::Call { call_type: CallType::EnumConstructor(_), .. },
    ensures
        ({
            &&& old matches Expr::Call { call_type, args, inferred_type }
            &&& new matches Expr::Call { call_type: c2, args: x2, inferred_type: t2 }
            &&& c2 == call_type
            &&& t2 == unified_or_kept(inferred_type, u)
            &&& x2@.len() == args@.len()
            &&& forall|i: int| 0 <= i < args@.len() ==> unified_to(#[trigger] args@[i], x2@[i], u)
            &&& expr_errors(old, u, r) == failure_message(
                inferred_type,
                u,
                "function return "@,
                match call_type {
                    CallType::VariantConstructor(name) => name@,
                    CallType::EnumConstructor(name) => name@,
                    _ => Seq::<char>::empty(),
                },
            ) + rev_errors(args@, u, r)
        }),
{
}

/// The creation of an instance keeps its type and what it creates; only the
/// arguments are unified and reported, last first.
pub proof fn law_instance_creation<T>(old: Expr<T>, new: Expr<T>, u: Unifier<T>, r: Renderer<T>)
    requires
        unified_to(old, new, u),
        old matches Expr::Call { call_type: CallType::InstanceCreation { .. }, .. },
    ensures
        ({
            &&& old matches Expr::Call { call_type, args, inferred_type }
            &&& new matches Expr::Call { call_type: c2, args: x2, inferred_type: t2 }
            &&& c2 == call_type
            &&& t2 == inferred_type
            &&& x2@.len() == args@.len()
            &&& forall|i: int| 0 <= i < args@.len() ==> unified_to(#[trigger] args@[i], x2@[i], u)
            &&& expr_errors(old, u, r) == rev_errors(args@, u, r)
        }),
{
}

/// The messages for a list of pushed expressions: none for an empty list;
/// adding an expression at the end puts its messages first.
pub proof fn law_pushed_last_first<T>(s: Seq<Expr<T>>, e: Expr<T>, u: Unifier<T>, r: Renderer<T>)
    ensures
        rev_errors(Seq::<Expr<T>>::empty(), u, r) == Seq::<Seq<char>>::empty(),
        rev_errors(s.push(e), u, r) == expr_errors(e, u, r) + rev_errors(s, u, r),
{
    assert(s.push(e).drop_last() =~= s);
}

/// The same for the fields of a record.
pub proof fn law_fields_last_first<T>(
    s: Seq<(String, Box<Expr<T>>)>,
    f: (String, Box<Expr<T>>),
    u: Unifier<T>,
    r: Renderer<T>,
)
    ensures
        rev_field_errors(Seq::<(String, Box<Expr<T>>)>::empty(), u, r) == Seq::<Seq<char>>::empty(),
        rev_field_errors(s.push(f), u, r) == expr_errors(*f.1, u, r) + rev_field_errors(s, u, r),
{
    assert(s.push(f).drop_last() =~= s);
}

/// The messages for the arms of a match: none for no arms; an arm added at
/// the end adds its resolution's messages and then its pattern's, last.
pub proof fn law_arms_in_order<T>(s: Seq<MatchArm<T>>, a: MatchArm<T>, u: Unifier<T>, r: Renderer<T>)
    ensures
        arms_errors(Seq::<MatchArm<T>>::empty(), u, r) == Seq::<Seq<char>>::empty(),
        arms_errors(s.push(a), u, r) == arms_errors(s, u, r) + expr_errors(
            *a.arm_resolution_expr,
            u,
            r,
        ) + pattern_errors(a.arm_pattern, u, r),
{
    assert(s.push(a).drop_last() =~= s);
}

/// The messages for a list of patterns: none for an empty list; a pattern
/// added at the end puts its messages first.
pub proof fn law_patterns_last_first<T>(
    s: Seq<ArmPattern<T>>,
    p: ArmPattern<T>,
    u: Unifier<T>,
    r: Renderer<T>,
)
    ensures
        rev_pattern_errors(Seq::<ArmPattern<T>>::empty(), u, r) == Seq::<Seq<char>>::empty(),
        rev_pattern_errors(s.push(p), u, r) == pattern_errors(p, u, r) + rev_pattern_errors(s, u, r),
{
    assert(s.push(p).drop_last() =~= s);
}

/// The same for the field patterns of a record pattern.
pub proof fn law_field_patterns_last_first<T>(
    s: Seq<(String, ArmPattern<T>)>,
    f: (String, ArmPattern<T>),
    u: Unifier<T>,
    r: Renderer<T>,
)
    ensures
        rev_field_pattern_errors(Seq::<(String, ArmPattern<T>)>::empty(), u, r) == Seq::<
            Seq<char>,
        >::empty(),
        rev_field_pattern_errors(s.push(f), u, r) == pattern_errors(f.1, u, r)
            + rev_field_pattern_errors(s, u, r),
{
    assert(s.push(f).drop_last() =~= s);
}

/// What the pass does in a pattern: a wildcard is left alone; a named
/// pattern's inner pattern, the parts of constructor, tuple, list and record
/// patterns, and literal expressions are unified. Parts are reported last
/// first.
pub proof fn law_pattern<T>(old: ArmPattern<T>, new: ArmPattern<T>, u: Unifier<T>, r: Renderer<T>)
    requires
        unified_pattern_to(old, new, u),
    ensures
        match old {
            ArmPattern::WildCard => new == old && pattern_errors(old, u, r) == Seq::<
                Seq<char>,
            >::empty(),
            ArmPattern::As(name, inner) => {
                &&& new matches ArmPattern::As(n2, i2)
                &&& n2 == name
                &&& unified_pattern_to(*inner, *i2, u)
                &&& pattern_errors(old, u, r) == pattern_errors(*inner, u, r)
            },
            ArmPattern::Constructor(name, ps) => {
                &&& new matches ArmPattern::Constructor(n2, p2)
                &&& n2 == name
                &&& p2@.len() == ps@.len()
                &&& forall|i: int|
                    0 <= i < ps@.len() ==> unified_pattern_to(#[trigger] ps@[i], p2@[i], u)
                &&& pattern_errors(old, u, r) == rev_pattern_errors(ps@, u, r)
            },
            ArmPattern::TupleConstructor(ps) => {
                &&& new matches ArmPattern::TupleConstructor(p2)
                &&& p2@.len() == ps@.len()
                &&& forall|i: int|
                    0 <= i < ps@.len() ==> unified_pattern_to(#[trigger] ps@[i], p2@[i], u)
                &&& pattern_errors(old, u, r) == rev_pattern_errors(ps@, u, r)
            },
            ArmPattern::ListConstructor(ps) => {
                &&& new matches ArmPattern::ListConstructor(p2)
                &&& p2@.len() == ps@.len()
                &&& forall|i: int|
                    0 <= i < ps@.len() ==> unified_pattern_to(#[trigger] ps@[i], p2@[i], u)
                &&& pattern_errors(old, u, r) == rev_pattern_errors(ps@, u, r)
            },
            ArmPattern::RecordConstructor(fs) => {
                &&& new matches ArmPattern::RecordConstructor(f2)
                &&& f2@.len() == fs@.len()
                &&& forall|i: int|
                    0 <= i < fs@.len() ==> f2@[i].0 == (#[trigger] fs@[i]).0 && unified_pattern_to(
                        fs@[i].1,
                        f2@[i].1,
                        u,
                    )
                &&& pattern_errors(old, u, r) == rev_field_pattern_errors(fs@, u, r)
            },
            ArmPattern::Literal(e) => {
                &&& new matches ArmPattern::Literal(e2)
                &&& unified_to(*e, *e2, u)
                &&& pattern_errors(old, u, r) == expr_errors(*e, u, r)
            },
        },
{
}

} // verus!
