# golem_rib

Type unification over Rib expressions, verified with Verus.

After type inference, every node of a Rib expression holds an inferred type
that may still be a set of candidates. `unification::unify_types` walks the
expression with a stack, replaces each node's type by its unified form, and
collects a message for every node whose type cannot be unified.

How a single type is unified, and how an expression is shown in a message,
are handed to the pass as functions (`unify`, `render`). The contract of the
pass is stated for every such pair of functions.

Layout:

- `src/expr.rs` — the expression tree (`Expr`, `CallType`, `MatchArm`, `ArmPattern`).
- `src/semantics.rs` — spec functions: the tree the pass leaves behind
  (`unified_to`), the messages it reports (`expr_errors`), and the nodes it
  visits (`all_visited`).
- `src/unification.rs` — the pass and its contract.
- `src/laws.rs` — proved properties over two runs of the pass, and when it
  succeeds.
- `tests/` — tests on concrete trees.
- `app/` — the asynchronous worker-invocation interface of the REPL.
