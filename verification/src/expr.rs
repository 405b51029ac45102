//! The Rib expression tree, with a type annotation of type `T` on every node.
use vstd::prelude::*;

verus! {

/// A Rib expression. Every node carries the type that inference has
/// assigned to it so far (`inferred_type`).
#[derive(Debug, PartialEq, Eq)]
pub enum Expr<T> {
    Let { variable_id: String, expr: Box<Expr<T>>, inferred_type: T },
    SelectField { expr: Box<Expr<T>>, field: String, inferred_type: T },
    SelectIndex { expr: Box<Expr<T>>, index: usize, inferred_type: T },
    Sequence { exprs: Vec<Expr<T>>, inferred_type: T },
    Record { exprs: Vec<(String, Box<Expr<T>>)>, inferred_type: T },
    Tuple { exprs: Vec<Expr<T>>, inferred_type: T },
    Literal { value: String, inferred_type: T },
    Number { number: String, inferred_type: T },
    Flags { flags: Vec<String>, inferred_type: T },
    Identifier { variable_id: String, inferred_type: T },
    Boolean { value: bool, inferred_type: T },
    Concat { exprs: Vec<Expr<T>>, inferred_type: T },
    ExprBlock { exprs: Vec<Expr<T>>, inferred_type: T },
    Not { expr: Box<Expr<T>>, inferred_type: T },
    GreaterThan { lhs: Box<Expr<T>>, rhs: Box<Expr<T>>, inferred_type: T },
    GreaterThanOrEqualTo { lhs: Box<Expr<T>>, rhs: Box<Expr<T>>, inferred_type: T },
    LessThanOrEqualTo { lhs: Box<Expr<T>>, rhs: Box<Expr<T>>, inferred_type: T },
    Plus { lhs: Box<Expr<T>>, rhs: Box<Expr<T>>, inferred_type: T },
    Minus { lhs: Box<Expr<T>>, rhs: Box<Expr<T>>, inferred_type: T },
    Multiply { lhs: Box<Expr<T>>, rhs: Box<Expr<T>>, inferred_type: T },
    Divide { lhs: Box<Expr<T>>, rhs: Box<Expr<T>>, inferred_type: T },
    EqualTo { lhs: Box<Expr<T>>, rhs: Box<Expr<T>>, inferred_type: T },
    LessThan { lhs: Box<Expr<T>>, rhs: Box<Expr<T>>, inferred_type: T },
    Cond { cond: Box<Expr<T>>, lhs: Box<Expr<T>>, rhs: Box<Expr<T>>, inferred_type: T },
    PatternMatch { predicate: Box<Expr<T>>, match_arms: Vec<MatchArm<T>>, inferred_type: T },
    Option { expr: Option<Box<Expr<T>>>, inferred_type: T },
    Result { expr: Result<Box<Expr<T>>, Box<Expr<T>>>, inferred_type: T },
    Call { call_type: CallType<T>, args: Vec<Expr<T>>, inferred_type: T },
    InvokeMethodLazy { lhs: Box<Expr<T>>, method: String, args: Vec<Expr<T>>, inferred_type: T },
    Unwrap { expr: Box<Expr<T>>, inferred_type: T },
    Throw { message: String, inferred_type: T },
    GetTag { expr: Box<Expr<T>>, inferred_type: T },
    And { lhs: Box<Expr<T>>, rhs: Box<Expr<T>>, inferred_type: T },
    Or { lhs: Box<Expr<T>>, rhs: Box<Expr<T>>, inferred_type: T },
    ListComprehension {
        iterated_variable: String,
        iterable_expr: Box<Expr<T>>,
        yield_expr: Box<Expr<T>>,
        inferred_type: T,
    },
    ListReduce {
        reduce_variable: String,
        iterated_variable: String,
        iterable_expr: Box<Expr<T>>,
        init_value_expr: Box<Expr<T>>,
        yield_expr: Box<Expr<T>>,
        inferred_type: T,
    },
}

/// What a call expression calls. The names are the text under which the
/// callee is shown.
#[derive(Debug, PartialEq, Eq)]
pub enum CallType<T> {
    /// A function of a worker; `worker` is the expression that names the worker, if any.
    Function { worker: Option<Box<Expr<T>>>, function_name: String },
    VariantConstructor(String),
    EnumConstructor(String),
    /// The creation of an instance; the worker name inside it is left to
    /// other passes.
    InstanceCreation { worker_name: Option<Box<Expr<T>>> },
}

/// One arm of a pattern match.
#[derive(Debug, PartialEq, Eq)]
pub struct MatchArm<T> {
    pub arm_pattern: ArmPattern<T>,
    pub arm_resolution_expr: Box<Expr<T>>,
}

/// The pattern of a match arm. Literal patterns hold an expression.
#[derive(Debug, PartialEq, Eq)]
pub enum ArmPattern<T> {
    WildCard,
    As(String, Box<ArmPattern<T>>),
    Constructor(String, Vec<ArmPattern<T>>),
    TupleConstructor(Vec<ArmPattern<T>>),
    RecordConstructor(Vec<(String, ArmPattern<T>)>),
    ListConstructor(Vec<ArmPattern<T>>),
    Literal(Box<Expr<T>>),
}

impl<T> Expr<T> {
    /// The type annotation of this node.
    pub open spec fn type_of(self) -> T {
        match self {
            Expr::Let { inferred_type, .. } => inferred_type,
            Expr::SelectField { inferred_type, .. } => inferred_type,
            Expr::SelectIndex { inferred_type, .. } => inferred_type,
            Expr::Sequence { inferred_type, .. } => inferred_type,
            Expr::Record { inferred_type, .. } => inferred_type,
            Expr::Tuple { inferred_type, .. } => inferred_type,
            Expr::Literal { inferred_type, .. } => inferred_type,
            Expr::Number { inferred_type, .. } => inferred_type,
            Expr::Flags { inferred_type, .. } => inferred_type,
            Expr::Identifier { inferred_type, .. } => inferred_type,
            Expr::Boolean { inferred_type, .. } => inferred_type,
            Expr::Concat { inferred_type, .. } => inferred_type,
            Expr::ExprBlock { inferred_type, .. } => inferred_type,
            Expr::Not { inferred_type, .. } => inferred_type,
            Expr::GreaterThan { inferred_type, .. } => inferred_type,
            Expr::GreaterThanOrEqualTo { inferred_type, .. } => inferred_type,
            Expr::LessThanOrEqualTo { inferred_type, .. } => inferred_type,
            Expr::Plus { inferred_type, .. } => inferred_type,
            Expr::Minus { inferred_type, .. } => inferred_type,
            Expr::Multiply { inferred_type, .. } => inferred_type,
            Expr::Divide { inferred_type, .. } => inferred_type,
            Expr::EqualTo { inferred_type, .. } => inferred_type,
            Expr::LessThan { inferred_type, .. } => inferred_type,
            Expr::Cond { inferred_type, .. } => inferred_type,
            Expr::PatternMatch { inferred_type, .. } => inferred_type,
            Expr::Option { inferred_type, .. } => inferred_type,
            Expr::Result { inferred_type, .. } => inferred_type,
            Expr::Call { inferred_type, .. } => inferred_type,
            Expr::InvokeMethodLazy { inferred_type, .. } => inferred_type,
            Expr::Unwrap { inferred_type, .. } => inferred_type,
            Expr::Throw { inferred_type, .. } => inferred_type,
            Expr::GetTag { inferred_type, .. } => inferred_type,
            Expr::And { inferred_type, .. } => inferred_type,
            Expr::Or { inferred_type, .. } => inferred_type,
            Expr::ListComprehension { inferred_type, .. } => inferred_type,
            Expr::ListReduce { inferred_type, .. } => inferred_type,
        }
    }
}

} // verus!
