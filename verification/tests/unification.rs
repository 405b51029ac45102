use golem_rib::expr::{ArmPattern, CallType, Expr, MatchArm};
use golem_rib::unification::unify_types;

// Types are written as text: "?x" cannot be unified (the reason names x),
// "~x" unifies to "x", and any other text is already unified.
fn unify(t: &String) -> Result<String, String> {
    if let Some(rest) = t.strip_prefix('?') {
        Err(format!("cannot infer {}", rest))
    } else if let Some(rest) = t.strip_prefix('~') {
        Ok(rest.to_string())
    } else {
        Ok(t.clone())
    }
}

fn render(e: &Expr<String>) -> String {
    match e {
        Expr::Number { number, .. } => number.clone(),
        Expr::Identifier { variable_id, .. } => variable_id.clone(),
        Expr::Literal { value, .. } => format!("\"{}\"", value),
        Expr::Boolean { value, .. } => value.to_string(),
        Expr::Flags { flags, .. } => format!("{{{}}}", flags.join(", ")),
        Expr::Not { expr, .. } => format!("!{}", render(expr)),
        Expr::Plus { lhs, rhs, .. } => format!("{} + {}", render(lhs), render(rhs)),
        Expr::Minus { lhs, rhs, .. } => format!("{} - {}", render(lhs), render(rhs)),
        Expr::Multiply { lhs, rhs, .. } => format!("{} * {}", render(lhs), render(rhs)),
        Expr::Divide { lhs, rhs, .. } => format!("{} / {}", render(lhs), render(rhs)),
        Expr::Tuple { exprs, .. } => {
            format!("({})", exprs.iter().map(render).collect::<Vec<_>>().join(", "))
        }
        Expr::Sequence { exprs, .. } => {
            format!("[{}]", exprs.iter().map(render).collect::<Vec<_>>().join(", "))
        }
        Expr::Record { exprs, .. } => format!(
            "{{{}}}",
            exprs
                .iter()
                .map(|(k, v)| format!("{}: {}", k, render(v)))
                .collect::<Vec<_>>()
                .join(", ")
        ),
        Expr::SelectField { expr, field, .. } => format!("{}.{}", render(expr), field),
        Expr::SelectIndex { expr, index, .. } => format!("{}[{}]", render(expr), index),
        Expr::Option { expr: Some(inner), .. } => format!("some({})", render(inner)),
        Expr::Option { expr: None, .. } => "none".to_string(),
        Expr::Result { expr: Ok(inner), .. } => format!("ok({})", render(inner)),
        Expr::Result { expr: Err(inner), .. } => format!("err({})", render(inner)),
        Expr::Unwrap { expr, .. } => format!("{}.unwrap()", render(expr)),
        Expr::Throw { message, .. } => format!("throw({})", message),
        Expr::GetTag { expr, .. } => format!("tag({})", render(expr)),
        _ => "<expr>".to_string(),
    }
}

fn t(s: &str) -> String {
    s.to_string()
}

fn num(n: &str, ty: &str) -> Expr<String> {
    Expr::Number { number: t(n), inferred_type: t(ty) }
}

fn ident(n: &str, ty: &str) -> Expr<String> {
    Expr::Identifier { variable_id: t(n), inferred_type: t(ty) }
}

fn b(e: Expr<String>) -> Box<Expr<String>> {
    Box::new(e)
}

fn run(e: &mut Expr<String>) -> Result<(), Vec<String>> {
    unify_types(e, &unify, &render)
}

fn msg(what: &str, reason: &str) -> String {
    format!("unable to infer the type of {}, cannot infer {}", what, reason)
}

#[test]
fn number_takes_the_unified_type() {
    let mut e = num("1", "~u32");
    assert_eq!(run(&mut e), Ok(()));
    assert_eq!(e, num("1", "u32"));
}

#[test]
fn number_that_cannot_be_unified_is_reported_and_kept() {
    let mut e = num("1", "?n");
    assert_eq!(run(&mut e), Err(vec![msg("1", "n")]));
    assert_eq!(e, num("1", "?n"));
}

#[test]
fn record_reports_fields_last_first() {
    let mut e = Expr::Record {
        exprs: vec![(t("a"), b(num("1", "?a"))), (t("b"), b(num("2", "?b")))],
        inferred_type: t("?r"),
    };
    assert_eq!(
        run(&mut e),
        Err(vec![msg("record {a: 1, b: 2}", "r"), msg("2", "b"), msg("1", "a")])
    );
}

#[test]
fn tuple_and_sequence_are_labelled() {
    let mut e = Expr::Tuple { exprs: vec![num("1", "~u8"), num("2", "?x")], inferred_type: t("?t") };
    assert_eq!(run(&mut e), Err(vec![msg("tuple (1, 2)", "t"), msg("2", "x")]));
    assert_eq!(
        e,
        Expr::Tuple { exprs: vec![num("1", "u8"), num("2", "?x")], inferred_type: t("?t") }
    );
    let mut s = Expr::Sequence { exprs: vec![num("1", "?a"), num("2", "?b")], inferred_type: t("?s") };
    assert_eq!(run(&mut s), Err(vec![msg("sequence [1, 2]", "s"), msg("2", "b"), msg("1", "a")]));
}

#[test]
fn option_and_result_are_labelled() {
    let mut some = Expr::Option { expr: Some(b(num("1", "?i"))), inferred_type: t("?o") };
    assert_eq!(run(&mut some), Err(vec![msg("option some(1)", "o"), msg("1", "i")]));
    let mut none = Expr::Option { expr: None, inferred_type: t("?o") };
    assert_eq!(run(&mut none), Err(vec![msg("option none", "o")]));
    let mut ok = Expr::Result { expr: Ok(b(num("1", "~u8"))), inferred_type: t("?r") };
    assert_eq!(run(&mut ok), Err(vec![msg("`result::ok` ok(1)", "r")]));
    let mut err = Expr::Result { expr: Err(b(num("1", "~u8"))), inferred_type: t("?r") };
    assert_eq!(run(&mut err), Err(vec![msg("`result::err` err(1)", "r")]));
}

#[test]
fn cond_visits_rhs_then_lhs_then_cond() {
    let mut e = Expr::Cond {
        cond: b(ident("c", "?c")),
        lhs: b(ident("l", "?l")),
        rhs: b(ident("r", "?r")),
        inferred_type: t("?if"),
    };
    assert_eq!(
        run(&mut e),
        Err(vec![msg("condition expression <expr>", "if"), msg("r", "r"), msg("l", "l"), msg("c", "c")])
    );
}

#[test]
fn list_comprehension_and_reduce_visit_in_reverse() {
    let mut c = Expr::ListComprehension {
        iterated_variable: t("x"),
        iterable_expr: b(ident("xs", "?xs")),
        yield_expr: b(ident("x", "?x")),
        inferred_type: t("?lc"),
    };
    assert_eq!(
        run(&mut c),
        Err(vec![msg("list comprehension <expr>", "lc"), msg("x", "x"), msg("xs", "xs")])
    );
    let mut r = Expr::ListReduce {
        reduce_variable: t("acc"),
        iterated_variable: t("x"),
        iterable_expr: b(ident("xs", "?xs")),
        init_value_expr: b(num("0", "?init")),
        yield_expr: b(ident("acc", "?acc")),
        inferred_type: t("?lr"),
    };
    assert_eq!(
        run(&mut r),
        Err(vec![
            msg("list aggregation <expr>", "lr"),
            msg("acc", "acc"),
            msg("0", "init"),
            msg("xs", "xs"),
        ])
    );
}

#[test]
fn pattern_match_visits_arms_in_order_then_predicate() {
    let arm0 = MatchArm {
        arm_pattern: ArmPattern::Constructor(
            t("some"),
            vec![
                ArmPattern::Literal(b(num("1", "?p1"))),
                ArmPattern::As(t("y"), Box::new(ArmPattern::Literal(b(num("2", "?p2"))))),
            ],
        ),
        arm_resolution_expr: b(ident("a", "?a")),
    };
    let arm1 = MatchArm {
        arm_pattern: ArmPattern::RecordConstructor(vec![
            (t("f"), ArmPattern::Literal(b(num("3", "?p3")))),
            (t("g"), ArmPattern::WildCard),
            (t("h"), ArmPattern::TupleConstructor(vec![ArmPattern::Literal(b(num("4", "?p4")))])),
        ]),
        arm_resolution_expr: b(ident("b", "?b")),
    };
    let arm2 = MatchArm {
        arm_pattern: ArmPattern::ListConstructor(vec![ArmPattern::Literal(b(num("5", "~u8")))]),
        arm_resolution_expr: b(ident("c", "?c")),
    };
    let mut e = Expr::PatternMatch {
        predicate: b(ident("p", "?p")),
        match_arms: vec![arm0, arm1, arm2],
        inferred_type: t("?m"),
    };
    assert_eq!(
        run(&mut e),
        Err(vec![
            msg("pattern match expression <expr>", "m"),
            msg("a", "a"),
            msg("2", "p2"),
            msg("1", "p1"),
            msg("b", "b"),
            msg("4", "p4"),
            msg("3", "p3"),
            msg("c", "c"),
            msg("p", "p"),
        ])
    );
    if let Expr::PatternMatch { match_arms, .. } = &e {
        assert_eq!(
            match_arms[2].arm_pattern,
            ArmPattern::ListConstructor(vec![ArmPattern::Literal(b(num("5", "u8")))])
        );
    } else {
        panic!("the pass changed the kind of node");
    }
}

#[test]
fn function_call_names_the_function_and_visits_worker_then_args() {
    let mut e = Expr::Call {
        call_type: CallType::Function { worker: Some(b(ident("w", "?w"))), function_name: t("api.{get}") },
        args: vec![num("1", "?a1"), num("2", "?a2")],
        inferred_type: t("?ret"),
    };
    assert_eq!(
        run(&mut e),
        Err(vec![
            "unable to infer the type of function return api.{get}, cannot infer ret".to_string(),
            msg("w", "w"),
            msg("2", "a2"),
            msg("1", "a1"),
        ])
    );
}

#[test]
fn constructor_calls_name_the_constructor() {
    let mut v = Expr::Call {
        call_type: CallType::VariantConstructor(t("circle")),
        args: vec![num("1", "~f64")],
        inferred_type: t("?shape"),
    };
    assert_eq!(
        run(&mut v),
        Err(vec!["unable to infer the type of function return circle, cannot infer shape".to_string()])
    );
    let mut en = Expr::Call {
        call_type: CallType::EnumConstructor(t("red")),
        args: vec![],
        inferred_type: t("~color"),
    };
    assert_eq!(run(&mut en), Ok(()));
    assert_eq!(
        en,
        Expr::Call { call_type: CallType::EnumConstructor(t("red")), args: vec![], inferred_type: t("color") }
    );
}

#[test]
fn instance_creation_keeps_its_type_and_its_worker_name() {
    let mut e = Expr::Call {
        call_type: CallType::InstanceCreation { worker_name: Some(b(ident("n", "?n"))) },
        args: vec![num("1", "?a")],
        inferred_type: t("?inst"),
    };
    assert_eq!(run(&mut e), Err(vec![msg("1", "a")]));
    assert_eq!(
        e,
        Expr::Call {
            call_type: CallType::InstanceCreation { worker_name: Some(b(ident("n", "?n"))) },
            args: vec![num("1", "?a")],
            inferred_type: t("?inst"),
        }
    );
}

#[test]
fn field_and_index_selection_are_labelled() {
    let mut f = Expr::SelectField { expr: b(ident("r", "~rec")), field: t("x"), inferred_type: t("?f") };
    assert_eq!(run(&mut f), Err(vec![msg("field selection r.x", "f")]));
    let mut i = Expr::SelectIndex { expr: b(ident("l", "?l")), index: 3, inferred_type: t("?i") };
    assert_eq!(run(&mut i), Err(vec![msg("index selection l[3]", "i"), msg("l", "l")]));
}

#[test]
fn let_keeps_its_own_type_and_visits_its_value() {
    let mut e = Expr::Let { variable_id: t("x"), expr: b(num("1", "~u8")), inferred_type: t("?let") };
    assert_eq!(run(&mut e), Ok(()));
    assert_eq!(e, Expr::Let { variable_id: t("x"), expr: b(num("1", "u8")), inferred_type: t("?let") });
}

#[test]
fn literal_flags_identifier_throw_are_labelled() {
    let mut l = Expr::Literal { value: t("hi"), inferred_type: t("?s") };
    assert_eq!(run(&mut l), Err(vec![msg("\"hi\"", "s")]));
    let mut f = Expr::Flags { flags: vec![t("a"), t("b")], inferred_type: t("?fl") };
    assert_eq!(run(&mut f), Err(vec![msg("flags {a, b}", "fl")]));
    let mut i = ident("x", "?x");
    assert_eq!(run(&mut i), Err(vec![msg("x", "x")]));
    let mut th = Expr::Throw { message: t("boom"), inferred_type: t("?th") };
    assert_eq!(run(&mut th), Err(vec![msg("throw(boom)", "th")]));
}

#[test]
fn boolean_and_concat_keep_their_types() {
    let mut bo = Expr::Boolean { value: true, inferred_type: t("?b") };
    assert_eq!(run(&mut bo), Ok(()));
    assert_eq!(bo, Expr::Boolean { value: true, inferred_type: t("?b") });
    let mut c = Expr::Concat {
        exprs: vec![Expr::Literal { value: t("a"), inferred_type: t("?a") }, ident("y", "~str")],
        inferred_type: t("?c"),
    };
    assert_eq!(run(&mut c), Err(vec![msg("\"a\"", "a")]));
    assert_eq!(
        c,
        Expr::Concat {
            exprs: vec![Expr::Literal { value: t("a"), inferred_type: t("?a") }, ident("y", "str")],
            inferred_type: t("?c"),
        }
    );
}

#[test]
fn expr_block_fails_silently_and_unifies_when_it_can() {
    let mut silent = Expr::ExprBlock { exprs: vec![num("1", "?x")], inferred_type: t("?blk") };
    assert_eq!(run(&mut silent), Err(vec![msg("1", "x")]));
    assert_eq!(silent, Expr::ExprBlock { exprs: vec![num("1", "?x")], inferred_type: t("?blk") });
    let mut fine = Expr::ExprBlock { exprs: vec![], inferred_type: t("~u8") };
    assert_eq!(run(&mut fine), Ok(()));
    assert_eq!(fine, Expr::ExprBlock { exprs: vec![], inferred_type: t("u8") });
}

#[test]
fn math_operations_report_plainly_rhs_before_lhs() {
    let ops: Vec<(fn(Box<Expr<String>>, Box<Expr<String>>, String) -> Expr<String>, &str)> = vec![
        (|l, r, t| Expr::Plus { lhs: l, rhs: r, inferred_type: t }, "+"),
        (|l, r, t| Expr::Minus { lhs: l, rhs: r, inferred_type: t }, "-"),
        (|l, r, t| Expr::Multiply { lhs: l, rhs: r, inferred_type: t }, "*"),
        (|l, r, t| Expr::Divide { lhs: l, rhs: r, inferred_type: t }, "/"),
    ];
    for (make, op) in ops {
        let mut e = make(b(num("1", "?l")), b(num("2", "?r")), t("?op"));
        assert_eq!(
            run(&mut e),
            Err(vec![msg(&format!("1 {} 2", op), "op"), msg("2", "r"), msg("1", "l")])
        );
    }
}

#[test]
fn comparisons_and_logic_keep_their_types() {
    let ops: Vec<fn(Box<Expr<String>>, Box<Expr<String>>, String) -> Expr<String>> = vec![
        |l, r, t| Expr::GreaterThan { lhs: l, rhs: r, inferred_type: t },
        |l, r, t| Expr::GreaterThanOrEqualTo { lhs: l, rhs: r, inferred_type: t },
        |l, r, t| Expr::LessThanOrEqualTo { lhs: l, rhs: r, inferred_type: t },
        |l, r, t| Expr::LessThan { lhs: l, rhs: r, inferred_type: t },
        |l, r, t| Expr::EqualTo { lhs: l, rhs: r, inferred_type: t },
        |l, r, t| Expr::And { lhs: l, rhs: r, inferred_type: t },
        |l, r, t| Expr::Or { lhs: l, rhs: r, inferred_type: t },
    ];
    for make in ops {
        let mut e = make(b(ident("a", "?a")), b(ident("b", "~bool")), t("?cmp"));
        assert_eq!(run(&mut e), Err(vec![msg("a", "a")]));
        assert_eq!(e, make(b(ident("a", "?a")), b(ident("b", "bool")), t("?cmp")));
    }
}

#[test]
fn not_and_unwrap_are_labelled_plainly() {
    let mut n = Expr::Not { expr: b(ident("x", "?x")), inferred_type: t("?not") };
    assert_eq!(run(&mut n), Err(vec![msg("!x", "not"), msg("x", "x")]));
    let mut u = Expr::Unwrap { expr: b(ident("x", "~option")), inferred_type: t("?un") };
    assert_eq!(run(&mut u), Err(vec![msg("x.unwrap()", "un")]));
}

#[test]
fn get_tag_and_lazy_method_calls_leave_their_operands_alone() {
    let mut g = Expr::GetTag { expr: b(ident("v", "?v")), inferred_type: t("~str") };
    assert_eq!(run(&mut g), Ok(()));
    assert_eq!(g, Expr::GetTag { expr: b(ident("v", "?v")), inferred_type: t("str") });
    let mut m = Expr::InvokeMethodLazy {
        lhs: b(ident("r", "?r")),
        method: t("get"),
        args: vec![num("1", "?a")],
        inferred_type: t("?m"),
    };
    assert_eq!(run(&mut m), Ok(()));
    assert_eq!(
        m,
        Expr::InvokeMethodLazy {
            lhs: b(ident("r", "?r")),
            method: t("get"),
            args: vec![num("1", "?a")],
            inferred_type: t("?m"),
        }
    );
}

fn sample() -> Expr<String> {
    Expr::Let {
        variable_id: t("x"),
        expr: b(Expr::Plus {
            lhs: b(num("1", "~u32")),
            rhs: b(Expr::Tuple { exprs: vec![ident("y", "?y"), num("2", "~u8")], inferred_type: t("~tuple") }),
            inferred_type: t("?sum"),
        }),
        inferred_type: t("?let"),
    }
}

#[test]
fn second_pass_changes_nothing_and_reports_as_much() {
    let mut e = sample();
    let first = run(&mut e).unwrap_err();
    let after_first = format!("{:?}", e);
    let second = run(&mut e).unwrap_err();
    assert_eq!(format!("{:?}", e), after_first);
    assert_eq!(first.len(), second.len());
    assert_eq!(first.len(), 2);
}

#[test]
fn no_messages_exactly_when_every_reporting_node_unifies() {
    let mut ok = Expr::Tuple { exprs: vec![num("1", "~u8"), ident("a", "str")], inferred_type: t("~t") };
    assert_eq!(run(&mut ok), Ok(()));
    let mut quiet = Expr::ExprBlock { exprs: vec![ident("a", "str")], inferred_type: t("?blk") };
    assert_eq!(run(&mut quiet), Ok(()));
    let mut not_ok = Expr::Tuple { exprs: vec![num("1", "~u8"), ident("a", "?a")], inferred_type: t("~t") };
    assert_eq!(run(&mut not_ok), Err(vec![msg("a", "a")]));
}

#[test]
fn messages_follow_the_visit_order_in_a_nested_tree() {
    let mut e = sample();
    assert_eq!(run(&mut e), Err(vec![msg("1 + (y, 2)", "sum"), msg("y", "y")]));
    assert_eq!(
        e,
        Expr::Let {
            variable_id: t("x"),
            expr: b(Expr::Plus {
                lhs: b(num("1", "u32")),
                rhs: b(Expr::Tuple { exprs: vec![ident("y", "?y"), num("2", "u8")], inferred_type: t("tuple") }),
                inferred_type: t("?sum"),
            }),
            inferred_type: t("?let"),
        }
    );
}
