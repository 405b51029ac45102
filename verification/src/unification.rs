//! The unification pass: unify the inferred type of every node of an
//! expression and collect a message for each node whose type cannot be
//! unified.
use vstd::prelude::*;
use crate::expr::{ArmPattern, CallType, Expr, MatchArm};
use crate::semantics::{
    all_visited, all_visited_in_pattern, unifies,
    arms_errors, error_text, expr_errors, next_type, pattern_errors, rev_errors,
    rev_field_errors, rev_field_pattern_errors, rev_pattern_errors, unified_pattern_to,
    unified_to, Renderer, Unifier,
};

verus! {

/// A unification result with the reason taken by its text.
pub open spec fn result_text<T>(res: Result<T, String>) -> Result<T, Seq<char>> {
    match res {
        Ok(unified) => Ok(unified),
        Err(reason) => Err(reason@),
    }
}

/// What `unify` returns for a type, as a spec function.
pub open spec fn unifier_of<T, U: Fn(&T) -> Result<T, String>>(unify: U) -> Unifier<T> {
    |t: T| result_text(choose|res: Result<T, String>| call_ensures(unify, (&t,), res))
}

/// What `render` returns for an expression, as a spec function.
pub open spec fn renderer_of<T, R: Fn(&Expr<T>) -> String>(render: R) -> Renderer<T> {
    |e: Expr<T>| (choose|s: String| call_ensures(render, (&e,), s))@
}

/// `unify` can be called on every type and gives one answer for each (the
/// reason of a failure taken by its text).
pub open spec fn is_unifier<T, U: Fn(&T) -> Result<T, String>>(unify: U) -> bool {
    &&& forall|t: T| call_requires(unify, (&t,))
    &&& forall|t: T, a: Result<T, String>, b: Result<T, String>|
        #[trigger] call_ensures(unify, (&t,), a) && #[trigger] call_ensures(unify, (&t,), b)
            ==> result_text(a) == result_text(b)
}

/// `render` can be called on every expression and gives one text for each.
pub open spec fn is_renderer<T, R: Fn(&Expr<T>) -> String>(render: R) -> bool {
    &&& forall|e: Expr<T>| call_requires(render, (&e,))
    &&& forall|e: Expr<T>, a: String, b: String|
        #[trigger] call_ensures(render, (&e,), a) && #[trigger] call_ensures(render, (&e,), b)
            ==> a@ == b@
}

/// `unify` has given an answer for `t`.
pub open spec fn called<T, U: Fn(&T) -> Result<T, String>>(unify: U, t: T) -> bool {
    exists|res: Result<T, String>| #[trigger] call_ensures(unify, (&t,), res)
}

/// `render` has given a text for `e`.
pub open spec fn rendered<T, R: Fn(&Expr<T>) -> String>(render: R, e: Expr<T>) -> bool {
    exists|s: String| #[trigger] call_ensures(render, (&e,), s)
}

/// The pass has rendered the node, and unified its type where it unifies.
pub open spec fn answered<T, U: Fn(&T) -> Result<T, String>, R: Fn(&Expr<T>) -> String>(
    unify: U,
    render: R,
) -> spec_fn(Expr<T>) -> bool {
    |n: Expr<T>| rendered(render, n) && (unifies(n) ==> called(unify, n.type_of()))
}

/// The texts of a list of messages.
pub open spec fn texts(v: Seq<String>) -> Seq<Seq<char>> {
    v.map_values(|s: String| s@)
}

/// The messages added for one node: none where `t` unifies.
pub open spec fn report_of<T>(t: T, u: Unifier<T>, label: Seq<char>, subject: Seq<char>) -> Seq<
    Seq<char>,
> {
    match u(t) {
        Ok(_) => Seq::empty(),
        Err(reason) => seq![error_text(label, subject, reason)],
    }
}

/// Unify one type in place: it becomes the unified type, or stays as it
/// was and the reason is returned.
fn unify_type<T, U: Fn(&T) -> Result<T, String>>(inferred_type: &mut T, unify: &U) -> (res: Result<
    (),
    String,
>)
    requires
        is_unifier(*unify),
    ensures
        *final(inferred_type) == next_type(*old(inferred_type), unifier_of(*unify)),
        res is Ok <==> unifier_of(*unify)(*old(inferred_type)) is Ok,
        res matches Err(reason) ==> unifier_of(*unify)(*old(inferred_type)) == Err::<T, Seq<char>>(
            reason@,
        ),
        called(*unify, *old(inferred_type)),
{
    let res = unify(&*inferred_type);
    proof {
        let chosen = choose|r: Result<T, String>| call_ensures(*unify, (&*old(inferred_type),), r);
        assert(call_ensures(*unify, (&*old(inferred_type),), chosen));
    }
    match res {
        Ok(unified) => {
            *inferred_type = unified;
            Ok(())
        },
        Err(reason) => Err(reason),
    }
}

/// The text of an expression.
fn render_expr<T, R: Fn(&Expr<T>) -> String>(e: &Expr<T>, render: &R) -> (s: String)
    requires
        is_renderer(*render),
    ensures
        s@ == renderer_of(*render)(*e),
        rendered(*render, *e),
{
    let s = render(e);
    proof {
        let chosen = choose|c: String| call_ensures(*render, (e,), c);
        assert(call_ensures(*render, (e,), chosen));
    }
    s
}

/// The message for a type that cannot be unified.
fn error_message(label: &str, subject: &str, reason: &str) -> (m: String)
    ensures
        m@ == error_text(label@, subject@, reason@),
{
    let mut m = String::from_str("unable to infer the type of ");
    m.append(label);
    m.append(subject);
    m.append(", ");
    m.append(reason);
    m
}

/// Unify the type of one node and add a message for it where that fails.
fn unify_and_report<T, U: Fn(&T) -> Result<T, String>>(
    inferred_type: &mut T,
    label: &str,
    subject: &str,
    unify: &U,
    errors: &mut Vec<String>,
)
    requires
        is_unifier(*unify),
    ensures
        *final(inferred_type) == next_type(*old(inferred_type), unifier_of(*unify)),
        texts(final(errors)@) == texts(old(errors)@) + report_of(
            *old(inferred_type),
            unifier_of(*unify),
            label@,
            subject@,
        ),
        called(*unify, *old(inferred_type)),
{
    match unify_type(inferred_type, unify) {
        Ok(()) => {
            assert(texts(errors@) =~= texts(old(errors)@) + report_of(
                *old(inferred_type),
                unifier_of(*unify),
                label@,
                subject@,
            ));
        },
        Err(reason) => {
            let m = error_message(label, subject, reason.as_str());
            errors.push(m);
            assert(texts(errors@) =~= texts(old(errors)@) + report_of(
                *old(inferred_type),
                unifier_of(*unify),
                label@,
                subject@,
            ));
        },
    }
}


/// Unify the type of a math operation. Its operands, pushed left then
/// right, are visited right then left.
fn handle_math_op<T, U: Fn(&T) -> Result<T, String>, R: Fn(&Expr<T>) -> String>(
    left: &mut Box<Expr<T>>,
    right: &mut Box<Expr<T>>,
    inferred_type: &mut T,
    unify: &U,
    render: &R,
    errors: &mut Vec<String>,
    expr_str: &str,
    Ghost(parent): Ghost<Expr<T>>,
)
    requires
        is_unifier(*unify),
        is_renderer(*render),
        decreases_to!(parent => **old(left)),
        decreases_to!(parent => **old(right)),
    ensures
        *final(inferred_type) == next_type(*old(inferred_type), unifier_of(*unify)),
        unified_to(**old(left), **final(left), unifier_of(*unify)),
        unified_to(**old(right), **final(right), unifier_of(*unify)),
        called(*unify, *old(inferred_type)),
        all_visited(**old(left), answered(*unify, *render)),
        all_visited(**old(right), answered(*unify, *render)),
        texts(final(errors)@) == texts(old(errors)@) + report_of(
            *old(inferred_type),
            unifier_of(*unify),
            ""@,
            expr_str@,
        ) + expr_errors(**old(right), unifier_of(*unify), renderer_of(*render)) + expr_errors(
            **old(left),
            unifier_of(*unify),
            renderer_of(*render),
        ),
    decreases parent, 0nat,
{
    unify_and_report(inferred_type, "", expr_str, unify, errors);
    unify_expr(&mut **right, unify, render, errors);
    unify_expr(&mut **left, unify, render, errors);
    assert(texts(errors@) =~= texts(old(errors)@) + report_of(
        *old(inferred_type),
        unifier_of(*unify),
        ""@,
        expr_str@,
    ) + expr_errors(**old(right), unifier_of(*unify), renderer_of(*render)) + expr_errors(
        **old(left),
        unifier_of(*unify),
        renderer_of(*render),
    ));
}

/// Visit a list of pushed expressions, the last one first.
fn unify_exprs_rev<T, U: Fn(&T) -> Result<T, String>, R: Fn(&Expr<T>) -> String>(
    exprs: &mut Vec<Expr<T>>,
    unify: &U,
    render: &R,
    errors: &mut Vec<String>,
)
    requires
        is_unifier(*unify),
        is_renderer(*render),
    ensures
        final(exprs)@.len() == old(exprs)@.len(),
        forall|i: int|
            0 <= i < old(exprs)@.len() ==> unified_to(
                #[trigger] old(exprs)@[i],
                final(exprs)@[i],
                unifier_of(*unify),
            ),
        forall|i: int|
            0 <= i < old(exprs)@.len() ==> all_visited(
                #[trigger] old(exprs)@[i],
                answered(*unify, *render),
            ),
        texts(final(errors)@) == texts(old(errors)@) + rev_errors(
            old(exprs)@,
            unifier_of(*unify),
            renderer_of(*render),
        ),
    decreases *old(exprs), 1nat,
{
    let ghost u = unifier_of(*unify);
    let ghost r = renderer_of(*render);
    let ghost orig = exprs@;
    let ghost start = texts(errors@);
    let ghost mut acc: Seq<Seq<char>> = Seq::empty();
    let mut i = exprs.len();
    assert(orig.take(i as int) =~= orig);
    while i > 0
        invariant
            is_unifier(*unify),
            is_renderer(*render),
            u == unifier_of(*unify),
            r == renderer_of(*render),
            orig == old(exprs)@,
            i <= orig.len(),
            exprs@.len() == orig.len(),
            forall|j: int| 0 <= j < i ==> exprs@[j] == orig[j],
            forall|j: int| i <= j < orig.len() ==> unified_to(#[trigger] orig[j], exprs@[j], u),
            forall|j: int|
                i <= j < orig.len() ==> all_visited(#[trigger] orig[j], answered(*unify, *render)),
            texts(errors@) == start + acc,
            rev_errors(orig, u, r) == acc + rev_errors(orig.take(i as int), u, r),
        decreases i,
    {
        i = i - 1;
        proof {
            assert(orig.take(i + 1).last() == orig[i as int]);
            assert(orig.take(i + 1).drop_last() =~= orig.take(i as int));
            assert(decreases_to!(*old(exprs) => old(exprs)@[i as int]));
        }
        unify_expr(&mut exprs[i], unify, render, errors);
        proof {
            acc = acc + expr_errors(orig[i as int], u, r);
            assert(texts(errors@) =~= start + acc);
        }
    }
    assert(orig.take(0) =~= Seq::<Expr<T>>::empty());
    assert(texts(errors@) =~= start + rev_errors(orig, u, r));
}

/// Visit the fields of a record, the last one first.
fn unify_fields_rev<T, U: Fn(&T) -> Result<T, String>, R: Fn(&Expr<T>) -> String>(
    exprs: &mut Vec<(String, Box<Expr<T>>)>,
    unify: &U,
    render: &R,
    errors: &mut Vec<String>,
)
    requires
        is_unifier(*unify),
        is_renderer(*render),
    ensures
        final(exprs)@.len() == old(exprs)@.len(),
        forall|i: int|
            0 <= i < old(exprs)@.len() ==> final(exprs)@[i].0 == (#[trigger] old(exprs)@[i]).0
                && unified_to(*old(exprs)@[i].1, *final(exprs)@[i].1, unifier_of(*unify)),
        forall|i: int|
            0 <= i < old(exprs)@.len() ==> all_visited(
                *(#[trigger] old(exprs)@[i]).1,
                answered(*unify, *render),
            ),
        texts(final(errors)@) == texts(old(errors)@) + rev_field_errors(
            old(exprs)@,
            unifier_of(*unify),
            renderer_of(*render),
        ),
    decreases *old(exprs), 1nat,
{
    let ghost u = unifier_of(*unify);
    let ghost r = renderer_of(*render);
    let ghost orig = exprs@;
    let ghost start = texts(errors@);
    let ghost mut acc: Seq<Seq<char>> = Seq::empty();
    let mut i = exprs.len();
    assert(orig.take(i as int) =~= orig);
    while i > 0
        invariant
            is_unifier(*unify),
            is_renderer(*render),
            u == unifier_of(*unify),
            r == renderer_of(*render),
            orig == old(exprs)@,
            i <= orig.len(),
            exprs@.len() == orig.len(),
            forall|j: int| 0 <= j < i ==> exprs@[j] == orig[j],
            forall|j: int|
                i <= j < orig.len() ==> exprs@[j].0 == (#[trigger] orig[j]).0 && unified_to(
                    *orig[j].1,
                    *exprs@[j].1,
                    u,
                ),
            forall|j: int|
                i <= j < orig.len() ==> all_visited(
                    *(#[trigger] orig[j]).1,
                    answered(*unify, *render),
                ),
            texts(errors@) == start + acc,
            rev_field_errors(orig, u, r) == acc + rev_field_errors(orig.take(i as int), u, r),
        decreases i,
    {
        i = i - 1;
        proof {
            assert(orig.take(i + 1).last() == orig[i as int]);
            assert(orig.take(i + 1).drop_last() =~= orig.take(i as int));
            assert(decreases_to!(*old(exprs) => old(exprs)@[i as int]));
            assert(decreases_to!(*old(exprs) => *old(exprs)@[i as int].1));
        }
        let field = &mut exprs[i];
        unify_expr(&mut *field.1, unify, render, errors);
        proof {
            acc = acc + expr_errors(*orig[i as int].1, u, r);
            assert(texts(errors@) =~= start + acc);
        }
    }
    assert(orig.take(0) =~= Seq::<(String, Box<Expr<T>>)>::empty());
    assert(texts(errors@) =~= start + rev_field_errors(orig, u, r));
}

/// Visit the arms of a match, first arm first: in each arm the resolution
/// comes before the literal expressions of the pattern.
fn unify_arms<T, U: Fn(&T) -> Result<T, String>, R: Fn(&Expr<T>) -> String>(
    arms: &mut Vec<MatchArm<T>>,
    unify: &U,
    render: &R,
    errors: &mut Vec<String>,
)
    requires
        is_unifier(*unify),
        is_renderer(*render),
    ensures
        final(arms)@.len() == old(arms)@.len(),
        forall|i: int|
            0 <= i < old(arms)@.len() ==> unified_pattern_to(
                (#[trigger] old(arms)@[i]).arm_pattern,
                final(arms)@[i].arm_pattern,
                unifier_of(*unify),
            ) && unified_to(
                *old(arms)@[i].arm_resolution_expr,
                *final(arms)@[i].arm_resolution_expr,
                unifier_of(*unify),
            ),
        forall|i: int|
            0 <= i < old(arms)@.len() ==> all_visited_in_pattern(
                (#[trigger] old(arms)@[i]).arm_pattern,
                answered(*unify, *render),
            ) && all_visited(*old(arms)@[i].arm_resolution_expr, answered(*unify, *render)),
        texts(final(errors)@) == texts(old(errors)@) + arms_errors(
            old(arms)@,
            unifier_of(*unify),
            renderer_of(*render),
        ),
    decreases *old(arms), 1nat,
{
    let ghost u = unifier_of(*unify);
    let ghost r = renderer_of(*render);
    let ghost orig = arms@;
    let ghost start = texts(errors@);
    let mut i: usize = 0;
    assert(orig.take(0) =~= Seq::<MatchArm<T>>::empty());
    while i < arms.len()
        invariant
            is_unifier(*unify),
            is_renderer(*render),
            u == unifier_of(*unify),
            r == renderer_of(*render),
            orig == old(arms)@,
            i <= orig.len(),
            arms@.len() == orig.len(),
            forall|j: int| i <= j < orig.len() ==> arms@[j] == orig[j],
            forall|j: int|
                0 <= j < i ==> unified_pattern_to(
                    (#[trigger] orig[j]).arm_pattern,
                    arms@[j].arm_pattern,
                    u,
                ) && unified_to(*orig[j].arm_resolution_expr, *arms@[j].arm_resolution_expr, u),
            forall|j: int|
                0 <= j < i ==> all_visited_in_pattern(
                    (#[trigger] orig[j]).arm_pattern,
                    answered(*unify, *render),
                ) && all_visited(*orig[j].arm_resolution_expr, answered(*unify, *render)),
            texts(errors@) == start + arms_errors(orig.take(i as int), u, r),
        decreases orig.len() - i,
    {
        proof {
            assert(orig.take(i + 1).last() == orig[i as int]);
            assert(orig.take(i + 1).drop_last() =~= orig.take(i as int));
            assert(decreases_to!(*old(arms) => old(arms)@[i as int]));
            assert(decreases_to!(*old(arms) => *old(arms)@[i as int].arm_resolution_expr));
            assert(decreases_to!(*old(arms) => old(arms)@[i as int].arm_pattern));
        }
        let arm = &mut arms[i];
        unify_expr(&mut *arm.arm_resolution_expr, unify, render, errors);
        unify_arm_pattern(&mut arm.arm_pattern, unify, render, errors);
        proof {
            assert(texts(errors@) =~= start + arms_errors(orig.take(i + 1), u, r));
        }
        i = i + 1;
    }
    assert(orig.take(orig.len() as int) =~= orig);
}

/// Visit the literal expressions of a pattern, in the reverse of the order
/// in which they stand in it.
fn unify_arm_pattern<T, U: Fn(&T) -> Result<T, String>, R: Fn(&Expr<T>) -> String>(
    arm_pattern: &mut ArmPattern<T>,
    unify: &U,
    render: &R,
    errors: &mut Vec<String>,
)
    requires
        is_unifier(*unify),
        is_renderer(*render),
    ensures
        unified_pattern_to(*old(arm_pattern), *final(arm_pattern), unifier_of(*unify)),
        all_visited_in_pattern(*old(arm_pattern), answered(*unify, *render)),
        texts(final(errors)@) == texts(old(errors)@) + pattern_errors(
            *old(arm_pattern),
            unifier_of(*unify),
            renderer_of(*render),
        ),
    decreases *old(arm_pattern), 1nat,
{
    match arm_pattern {
        ArmPattern::WildCard => {
            assert(texts(errors@) =~= texts(old(errors)@) + pattern_errors(
                *old(arm_pattern),
                unifier_of(*unify),
                renderer_of(*render),
            ));
        },
        ArmPattern::As(_, inner) => {
            unify_arm_pattern(&mut **inner, unify, render, errors);
        },
        ArmPattern::Constructor(_, patterns) => {
            unify_patterns_rev(patterns, unify, render, errors);
        },
        ArmPattern::TupleConstructor(patterns) => {
            unify_patterns_rev(patterns, unify, render, errors);
        },
        ArmPattern::ListConstructor(patterns) => {
            unify_patterns_rev(patterns, unify, render, errors);
        },
        ArmPattern::RecordConstructor(fields) => {
            unify_field_patterns_rev(fields, unify, render, errors);
        },
        ArmPattern::Literal(e) => {
            unify_expr(&mut **e, unify, render, errors);
        },
    }
}

/// Visit a list of patterns, the last one first.
fn unify_patterns_rev<T, U: Fn(&T) -> Result<T, String>, R: Fn(&Expr<T>) -> String>(
    patterns: &mut Vec<ArmPattern<T>>,
    unify: &U,
    render: &R,
    errors: &mut Vec<String>,
)
    requires
        is_unifier(*unify),
        is_renderer(*render),
    ensures
        final(patterns)@.len() == old(patterns)@.len(),
        forall|i: int|
            0 <= i < old(patterns)@.len() ==> unified_pattern_to(
                #[trigger] old(patterns)@[i],
                final(patterns)@[i],
                unifier_of(*unify),
            ),
        forall|i: int|
            0 <= i < old(patterns)@.len() ==> all_visited_in_pattern(
                #[trigger] old(patterns)@[i],
                answered(*unify, *render),
            ),
        texts(final(errors)@) == texts(old(errors)@) + rev_pattern_errors(
            old(patterns)@,
            unifier_of(*unify),
            renderer_of(*render),
        ),
    decreases *old(patterns), 1nat,
{
    let ghost u = unifier_of(*unify);
    let ghost r = renderer_of(*render);
    let ghost orig = patterns@;
    let ghost start = texts(errors@);
    let ghost mut acc: Seq<Seq<char>> = Seq::empty();
    let mut i = patterns.len();
    assert(orig.take(i as int) =~= orig);
    while i > 0
        invariant
            is_unifier(*unify),
            is_renderer(*render),
            u == unifier_of(*unify),
            r == renderer_of(*render),
            orig == old(patterns)@,
            i <= orig.len(),
            patterns@.len() == orig.len(),
            forall|j: int| 0 <= j < i ==> patterns@[j] == orig[j],
            forall|j: int|
                i <= j < orig.len() ==> unified_pattern_to(#[trigger] orig[j], patterns@[j], u),
            forall|j: int|
                i <= j < orig.len() ==> all_visited_in_pattern(
                    #[trigger] orig[j],
                    answered(*unify, *render),
                ),
            texts(errors@) == start + acc,
            rev_pattern_errors(orig, u, r) == acc + rev_pattern_errors(orig.take(i as int), u, r),
        decreases i,
    {
        i = i - 1;
        proof {
            assert(orig.take(i + 1).last() == orig[i as int]);
            assert(orig.take(i + 1).drop_last() =~= orig.take(i as int));
            assert(decreases_to!(*old(patterns) => old(patterns)@[i as int]));
        }
        unify_arm_pattern(&mut patterns[i], unify, render, errors);
        proof {
            acc = acc + pattern_errors(orig[i as int], u, r);
            assert(texts(errors@) =~= start + acc);
        }
    }
    assert(orig.take(0) =~= Seq::<ArmPattern<T>>::empty());
    assert(texts(errors@) =~= start + rev_pattern_errors(orig, u, r));
}

/// Visit the field patterns of a record pattern, the last one first.
fn unify_field_patterns_rev<T, U: Fn(&T) -> Result<T, String>, R: Fn(&Expr<T>) -> String>(
    fields: &mut Vec<(String, ArmPattern<T>)>,
    unify: &U,
    render: &R,
    errors: &mut Vec<String>,
)
    requires
        is_unifier(*unify),
        is_renderer(*render),
    ensures
        final(fields)@.len() == old(fields)@.len(),
        forall|i: int|
            0 <= i < old(fields)@.len() ==> final(fields)@[i].0 == (#[trigger] old(fields)@[i]).0
                && unified_pattern_to(old(fields)@[i].1, final(fields)@[i].1, unifier_of(*unify)),
        forall|i: int|
            0 <= i < old(fields)@.len() ==> all_visited_in_pattern(
                (#[trigger] old(fields)@[i]).1,
                answered(*unify, *render),
            ),
        texts(final(errors)@) == texts(old(errors)@) + rev_field_pattern_errors(
            old(fields)@,
            unifier_of(*unify),
            renderer_of(*render),
        ),
    decreases *old(fields), 1nat,
{
    let ghost u = unifier_of(*unify);
    let ghost r = renderer_of(*render);
    let ghost orig = fields@;
    let ghost start = texts(errors@);
    let ghost mut acc: Seq<Seq<char>> = Seq::empty();
    let mut i = fields.len();
    assert(orig.take(i as int) =~= orig);
    while i > 0
        invariant
            is_unifier(*unify),
            is_renderer(*render),
            u == unifier_of(*unify),
            r == renderer_of(*render),
            orig == old(fields)@,
            i <= orig.len(),
            fields@.len() == orig.len(),
            forall|j: int| 0 <= j < i ==> fields@[j] == orig[j],
            forall|j: int|
                i <= j < orig.len() ==> fields@[j].0 == (#[trigger] orig[j]).0
                    && unified_pattern_to(orig[j].1, fields@[j].1, u),
            forall|j: int|
                i <= j < orig.len() ==> all_visited_in_pattern(
                    (#[trigger] orig[j]).1,
                    answered(*unify, *render),
                ),
            texts(errors@) == start + acc,
            rev_field_pattern_errors(orig, u, r) == acc + rev_field_pattern_errors(
                orig.take(i as int),
                u,
                r,
            ),
        decreases i,
    {
        i = i - 1;
        proof {
            assert(orig.take(i + 1).last() == orig[i as int]);
            assert(orig.take(i + 1).drop_last() =~= orig.take(i as int));
            assert(decreases_to!(*old(fields) => old(fields)@[i as int]));
            assert(decreases_to!(*old(fields) => old(fields)@[i as int].1));
        }
        let field = &mut fields[i];
        unify_arm_pattern(&mut field.1, unify, render, errors);
        proof {
            acc = acc + pattern_errors(orig[i as int].1, u, r);
            assert(texts(errors@) =~= start + acc);
        }
    }
    assert(orig.take(0) =~= Seq::<(String, ArmPattern<T>)>::empty());
    assert(texts(errors@) =~= start + rev_field_pattern_errors(orig, u, r));
}

/// Visit one node and then its subtree: unify the node's type, report a
/// failure, then visit the children in the reverse of the order in which
/// the node pushes them.
#[verifier::rlimit(60)]
fn unify_expr<T, U: Fn(&T) -> Result<T, String>, R: Fn(&Expr<T>) -> String>(
    expr: &mut Expr<T>,
    unify: &U,
    render: &R,
    errors: &mut Vec<String>,
)
    requires
        is_unifier(*unify),
        is_renderer(*render),
    ensures
        unified_to(*old(expr), *final(expr), unifier_of(*unify)),
        all_visited(*old(expr), answered(*unify, *render)),
        texts(final(errors)@) == texts(old(errors)@) + expr_errors(
            *old(expr),
            unifier_of(*unify),
            renderer_of(*render),
        ),
    decreases *old(expr), 1nat,
{
    let ghost u = unifier_of(*unify);
    let ghost r = renderer_of(*render);
    let expr_str = render_expr(&*expr, render);
    let subject = expr_str.as_str();
    match expr {
        Expr::Number { inferred_type, .. } => {
            unify_and_report(inferred_type, "", subject, unify, errors);
        },
        Expr::Record { exprs, inferred_type } => {
            unify_and_report(inferred_type, "record ", subject, unify, errors);
            unify_fields_rev(exprs, unify, render, errors);
        },
        Expr::Tuple { exprs, inferred_type } => {
            unify_and_report(inferred_type, "tuple ", subject, unify, errors);
            unify_exprs_rev(exprs, unify, render, errors);
        },
        Expr::Sequence { exprs, inferred_type } => {
            unify_and_report(inferred_type, "sequence ", subject, unify, errors);
            unify_exprs_rev(exprs, unify, render, errors);
        },
        Expr::Option { expr: Some(inner), inferred_type } => {
            unify_and_report(inferred_type, "option ", subject, unify, errors);
            unify_expr(&mut **inner, unify, render, errors);
        },
        Expr::Option { expr: None, inferred_type } => {
            unify_and_report(inferred_type, "option ", subject, unify, errors);
        },
        Expr::Result { expr: Ok(inner), inferred_type } => {
            unify_and_report(inferred_type, "`result::ok` ", subject, unify, errors);
            unify_expr(&mut **inner, unify, render, errors);
        },
        Expr::Result { expr: Err(inner), inferred_type } => {
            unify_and_report(inferred_type, "`result::err` ", subject, unify, errors);
            unify_expr(&mut **inner, unify, render, errors);
        },
        Expr::Cond { cond: condition, lhs: left, rhs: right, inferred_type } => {
            unify_and_report(inferred_type, "condition expression ", subject, unify, errors);
            unify_expr(&mut **right, unify, render, errors);
            unify_expr(&mut **left, unify, render, errors);
            unify_expr(&mut **condition, unify, render, errors);
        },
        Expr::ListComprehension { iterable_expr, yield_expr, inferred_type, .. } => {
            unify_and_report(inferred_type, "list comprehension ", subject, unify, errors);
            unify_expr(&mut **yield_expr, unify, render, errors);
            unify_expr(&mut **iterable_expr, unify, render, errors);
        },
        Expr::ListReduce { iterable_expr, init_value_expr, yield_expr, inferred_type, .. } => {
            unify_and_report(inferred_type, "list aggregation ", subject, unify, errors);
            unify_expr(&mut **yield_expr, unify, render, errors);
            unify_expr(&mut **init_value_expr, unify, render, errors);
            unify_expr(&mut **iterable_expr, unify, render, errors);
        },
        Expr::PatternMatch { predicate, match_arms, inferred_type } => {
            unify_and_report(inferred_type, "pattern match expression ", subject, unify, errors);
            unify_arms(match_arms, unify, render, errors);
            unify_expr(&mut **predicate, unify, render, errors);
        },
        Expr::Call { call_type, args, inferred_type } => {
            match call_type {
                CallType::InstanceCreation { .. } => {},
                CallType::Function { worker, function_name } => {
                    unify_and_report(
                        inferred_type,
                        "function return ",
                        function_name.as_str(),
                        unify,
                        errors,
                    );
                    match worker {
                        Some(w) => {
                            unify_expr(&mut **w, unify, render, errors);
                        },
                        None => {},
                    }
                },
                CallType::VariantConstructor(name) => {
                    unify_and_report(inferred_type, "function return ", name.as_str(), unify, errors);
                },
                CallType::EnumConstructor(name) => {
                    unify_and_report(inferred_type, "function return ", name.as_str(), unify, errors);
                },
            }
            unify_exprs_rev(args, unify, render, errors);
        },
        Expr::SelectField { expr: inner, inferred_type, .. } => {
            unify_and_report(inferred_type, "field selection ", subject, unify, errors);
            unify_expr(&mut **inner, unify, render, errors);
        },
        Expr::SelectIndex { expr: inner, inferred_type, .. } => {
            unify_and_report(inferred_type, "index selection ", subject, unify, errors);
            unify_expr(&mut **inner, unify, render, errors);
        },
        Expr::Let { expr: inner, .. } => {
            unify_expr(&mut **inner, unify, render, errors);
        },
        Expr::Literal { inferred_type, .. } => {
            unify_and_report(inferred_type, "", subject, unify, errors);
        },
        Expr::Flags { inferred_type, .. } => {
            unify_and_report(inferred_type, "flags ", subject, unify, errors);
        },
        Expr::Identifier { inferred_type, .. } => {
            unify_and_report(inferred_type, "", subject, unify, errors);
        },
        Expr::Boolean { .. } => {},
        Expr::Concat { exprs, .. } => {
            unify_exprs_rev(exprs, unify, render, errors);
        },
        Expr::ExprBlock { exprs, inferred_type } => {
            let _ = unify_type(inferred_type, unify);
            unify_exprs_rev(exprs, unify, render, errors);
        },
        Expr::Not { expr: inner, inferred_type } => {
            unify_and_report(inferred_type, "", subject, unify, errors);
            unify_expr(&mut **inner, unify, render, errors);
        },
        Expr::Unwrap { expr: inner, inferred_type } => {
            unify_and_report(inferred_type, "", subject, unify, errors);
            unify_expr(&mut **inner, unify, render, errors);
        },
        Expr::Throw { inferred_type, .. } => {
            unify_and_report(inferred_type, "", subject, unify, errors);
        },
        Expr::GetTag { inferred_type, .. } => {
            unify_and_report(inferred_type, "", subject, unify, errors);
        },
        Expr::GreaterThan { lhs: left, rhs: right, .. } => {
            unify_expr(&mut **right, unify, render, errors);
            unify_expr(&mut **left, unify, render, errors);
        },
        Expr::Plus { lhs: left, rhs: right, inferred_type } => {
            handle_math_op(left, right, inferred_type, unify, render, errors, subject, Ghost(*old(expr)));
        },
        Expr::Minus { lhs: left, rhs: right, inferred_type } => {
            handle_math_op(left, right, inferred_type, unify, render, errors, subject, Ghost(*old(expr)));
        },
        Expr::Divide { lhs: left, rhs: right, inferred_type } => {
            handle_math_op(left, right, inferred_type, unify, render, errors, subject, Ghost(*old(expr)));
        },
        Expr::Multiply { lhs: left, rhs: right, inferred_type } => {
            handle_math_op(left, right, inferred_type, unify, render, errors, subject, Ghost(*old(expr)));
        },
        Expr::And { lhs: left, rhs: right, .. } => {
            unify_expr(&mut **right, unify, render, errors);
            unify_expr(&mut **left, unify, render, errors);
        },
        Expr::Or { lhs: left, rhs: right, .. } => {
            unify_expr(&mut **right, unify, render, errors);
            unify_expr(&mut **left, unify, render, errors);
        },
        Expr::GreaterThanOrEqualTo { lhs: left, rhs: right, .. } => {
            unify_expr(&mut **right, unify, render, errors);
            unify_expr(&mut **left, unify, render, errors);
        },
        Expr::LessThanOrEqualTo { lhs: left, rhs: right, .. } => {
            unify_expr(&mut **right, unify, render, errors);
            unify_expr(&mut **left, unify, render, errors);
        },
        Expr::EqualTo { lhs: left, rhs: right, .. } => {
            unify_expr(&mut **right, unify, render, errors);
            unify_expr(&mut **left, unify, render, errors);
        },
        Expr::LessThan { lhs: left, rhs: right, .. } => {
            unify_expr(&mut **right, unify, render, errors);
            unify_expr(&mut **left, unify, render, errors);
        },
        Expr::InvokeMethodLazy { .. } => {},
    }
    assert(texts(errors@) =~= texts(old(errors)@) + expr_errors(*old(expr), u, r));
}

/// Unify the inferred type of every node of `expr`.
///
/// `unify` unifies one type; `render` gives the text of an expression, which
/// messages quote. Nodes are visited with a stack, starting from `expr`:
/// each node before its descendants, and the children of a node in the
/// reverse of the order in which it pushes them. A node whose type unifies
/// takes the unified type; one whose type does not keeps it, and (but for a
/// block) adds a message. The result is `Ok` exactly when no message was
/// added, and otherwise holds all messages, in the order of the visit.
pub fn unify_types<T, U, R>(expr: &mut Expr<T>, unify: &U, render: &R) -> (result: Result<
    (),
    Vec<String>,
>) where U: Fn(&T) -> Result<T, String>, R: Fn(&Expr<T>) -> String
    requires
        is_unifier(*unify),
        is_renderer(*render),
    ensures
        unified_to(*old(expr), *final(expr), unifier_of(*unify)),
        all_visited(*old(expr), answered(*unify, *render)),
        result is Ok <==> expr_errors(
            *old(expr),
            unifier_of(*unify),
            renderer_of(*render),
        ).len() == 0,
        result matches Err(errors) ==> texts(errors@) == expr_errors(
            *old(expr),
            unifier_of(*unify),
            renderer_of(*render),
        ),
{
    let mut errors: Vec<String> = Vec::new();
    unify_expr(expr, unify, render, &mut errors);
    assert(texts(Seq::<String>::empty()) =~= Seq::<Seq<char>>::empty());
    if errors.len() == 0 {
        Ok(())
    } else {
        Err(errors)
    }
}

} // verus!
