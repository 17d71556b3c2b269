//! The syntax tree of the scripting subset.
use vstd::prelude::*;
use crate::types::InterfaceDecl;

verus! {

/// An assignment operator, plain or compound.
#[derive(Clone, Copy, Debug, PartialEq, Eq, Structural)]
pub enum AssignOp {
    Assign,
    AddAssign,
    SubAssign,
    MulAssign,
    DivAssign,
    ModAssign,
    LShiftAssign,
    RShiftAssign,
    ZeroFillRShiftAssign,
    BitOrAssign,
    BitXorAssign,
    BitAndAssign,
    ExpAssign,
    AndAssign,
    OrAssign,
    NullishAssign,
}

/// A binary operator.
#[derive(Clone, Copy, Debug, PartialEq, Eq, Structural)]
pub enum BinaryOp {
    EqEq,
    NotEq,
    EqEqEq,
    NotEqEq,
    Lt,
    LtEq,
    Gt,
    GtEq,
    LShift,
    RShift,
    ZeroFillRShift,
    Add,
    Sub,
    Mul,
    Div,
    Mod,
    BitOr,
    BitXor,
    BitAnd,
    LogicalOr,
    LogicalAnd,
    In,
    InstanceOf,
    Exp,
    NullishCoalescing,
}

/// A unary operator.
#[derive(Clone, Copy, Debug, PartialEq, Eq, Structural)]
pub enum UnaryOp {
    Minus,
    Plus,
    Bang,
    Tilde,
    TypeOf,
    Void,
    Delete,
}

/// The keyword that introduces a variable declaration.
#[derive(Clone, Copy, Debug, PartialEq, Eq, Structural)]
pub enum VarKind {
    Var,
    Let,
    Const,
}

/// A literal.
#[derive(Debug, PartialEq, Eq)]
pub enum Lit {
    /// A string literal, by its value.
    Str(String),
    /// A numeric literal, by its source text.
    Num(String),
    Bool(bool),
    Null,
}

/// A construct outside the modelled subset. Its owner keeps the construct
/// itself under `key`; the tree holds the expressions and the statements that
/// stand directly under it, each list in source order, so that the rewrite
/// reaches them.
#[derive(Debug, PartialEq, Eq)]
pub struct Foreign {
    pub key: u64,
    pub exprs: Vec<Expr>,
    pub stmts: Vec<Stmt>,
}

/// A binding pattern.
#[derive(Debug, PartialEq, Eq)]
pub enum Pat {
    /// A simple name.
    Ident(String),
    /// Any other pattern, such as a destructuring one.
    Foreign(Foreign),
}

/// The property part of a member access.
#[derive(Debug, PartialEq, Eq)]
pub enum MemberProp {
    /// A static name, as in `obj.foo`.
    Ident(String),
    /// A computed key, as in `obj["foo"]` or `obj[i + 1]`.
    Computed(Box<Expr>),
    /// A private name, as in `obj.#foo`.
    PrivateName(String),
}

/// A member access: an object and the property read from it.
#[derive(Debug, PartialEq, Eq)]
pub struct MemberExpr {
    pub obj: Box<Expr>,
    pub prop: MemberProp,
}

/// The left side of an assignment.
#[derive(Debug, PartialEq, Eq)]
pub enum AssignTarget {
    Ident(String),
    Member(MemberExpr),
    Pattern(Pat),
}

/// The parameters, body and flags shared by function declarations and
/// function expressions.
#[derive(Debug, PartialEq, Eq)]
pub struct Function {
    pub params: Vec<Pat>,
    pub body: Vec<Stmt>,
    pub is_async: bool,
    pub is_generator: bool,
}

/// The body of an arrow function.
#[derive(Debug, PartialEq, Eq)]
pub enum ArrowBody {
    Block(Vec<Stmt>),
    Expr(Box<Expr>),
}

/// An expression.
#[derive(Debug, PartialEq, Eq)]
#[allow(inconsistent_fields)]
pub enum Expr {
    Ident(String),
    Lit(Lit),
    This,
    Member(MemberExpr),
    Call { callee: Box<Expr>, args: Vec<Expr> },
    New { callee: Box<Expr>, args: Vec<Expr> },
    Assign { op: AssignOp, left: AssignTarget, right: Box<Expr> },
    Bin { op: BinaryOp, left: Box<Expr>, right: Box<Expr> },
    Unary { op: UnaryOp, arg: Box<Expr> },
    Cond { test: Box<Expr>, cons: Box<Expr>, alt: Box<Expr> },
    Array(Vec<Expr>),
    Paren(Box<Expr>),
    Arrow { params: Vec<Pat>, body: ArrowBody, is_async: bool },
    Fn { name: Option<String>, function: Function },
    Await(Box<Expr>),
    /// Any other expression.
    Foreign(Foreign),
}

/// One name of a variable declaration, with its initial value.
#[derive(Debug, PartialEq, Eq)]
pub struct VarDeclarator {
    pub name: Pat,
    pub init: Option<Expr>,
}

/// A variable declaration.
#[derive(Debug, PartialEq, Eq)]
pub struct VarDecl {
    pub kind: VarKind,
    pub decls: Vec<VarDeclarator>,
}

/// The initialiser of a `for` loop.
#[derive(Debug, PartialEq, Eq)]
pub enum ForInit {
    Var(VarDecl),
    Expr(Expr),
}

/// The binding of a `for`-`in` or `for`-`of` loop.
#[derive(Debug, PartialEq, Eq)]
pub enum ForHead {
    Var(VarDecl),
    Pat(Pat),
}

/// The handler of a `try` statement.
#[derive(Debug, PartialEq, Eq)]
pub struct CatchClause {
    pub param: Option<Pat>,
    pub body: Vec<Stmt>,
}

/// A statement.
#[derive(Debug, PartialEq, Eq)]
#[allow(inconsistent_fields)]
pub enum Stmt {
    Block(Vec<Stmt>),
    Expr(Expr),
    FnDecl { name: String, function: Function },
    Interface(InterfaceDecl),
    Var(VarDecl),
    For { init: Option<ForInit>, test: Option<Expr>, update: Option<Expr>, body: Box<Stmt> },
    ForIn { left: ForHead, right: Expr, body: Box<Stmt> },
    ForOf { is_await: bool, left: ForHead, right: Expr, body: Box<Stmt> },
    While { test: Expr, body: Box<Stmt> },
    DoWhile { body: Box<Stmt>, test: Expr },
    If { test: Expr, cons: Box<Stmt>, alt: Option<Box<Stmt>> },
    Return(Option<Expr>),
    Throw(Expr),
    Try { block: Vec<Stmt>, handler: Option<CatchClause>, finalizer: Option<Vec<Stmt>> },
    /// Any other statement or module item.
    Foreign(Foreign),
}

/// A program: its top-level items in source order.
#[derive(Debug, PartialEq, Eq)]
pub struct Module {
    pub body: Vec<Stmt>,
}

} // verus!
