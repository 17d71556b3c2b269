//! The mathematical view of the syntax tree: the same shapes, with
//! sequences in place of vectors and strings. Each `...View` type mirrors the
//! type it is named after, and each `..._view` function maps a node to its
//! view, child by child.
use vstd::prelude::*;
use crate::ast::{
    ArrowBody, AssignOp, AssignTarget, BinaryOp, CatchClause, Expr, ForHead, ForInit, Foreign,
    Function, Lit, MemberExpr, MemberProp, Module, Pat, Stmt, UnaryOp, VarDecl, VarDeclarator,
    VarKind,
};
use crate::types::InterfaceDeclView;

verus! {

pub enum LitView {
    Str(Seq<char>),
    Num(Seq<char>),
    Bool(bool),
    Null,
}

pub struct ForeignView {
    pub key: u64,
    pub exprs: Seq<ExprView>,
    pub stmts: Seq<StmtView>,
}

pub enum PatView {
    Ident(Seq<char>),
    Foreign(ForeignView),
}

pub enum MemberPropView {
    Ident(Seq<char>),
    Computed(Box<ExprView>),
    PrivateName(Seq<char>),
}

pub struct MemberExprView {
    pub obj: Box<ExprView>,
    pub prop: MemberPropView,
}

pub enum AssignTargetView {
    Ident(Seq<char>),
    Member(MemberExprView),
    Pattern(PatView),
}

pub struct FunctionView {
    pub params: Seq<PatView>,
    pub body: Seq<StmtView>,
    pub is_async: bool,
    pub is_generator: bool,
}

pub enum ArrowBodyView {
    Block(Seq<StmtView>),
    Expr(Box<ExprView>),
}

#[allow(inconsistent_fields)]
pub enum ExprView {
    Ident(Seq<char>),
    Lit(LitView),
    This,
    Member(MemberExprView),
    Call { callee: Box<ExprView>, args: Seq<ExprView> },
    New { callee: Box<ExprView>, args: Seq<ExprView> },
    Assign { op: AssignOp, left: AssignTargetView, right: Box<ExprView> },
    Bin { op: BinaryOp, left: Box<ExprView>, right: Box<ExprView> },
    Unary { op: UnaryOp, arg: Box<ExprView> },
    Cond { test: Box<ExprView>, cons: Box<ExprView>, alt: Box<ExprView> },
    Array(Seq<ExprView>),
    Paren(Box<ExprView>),
    Arrow { params: Seq<PatView>, body: ArrowBodyView, is_async: bool },
    Fn { name: Option<Seq<char>>, function: FunctionView },
    Await(Box<ExprView>),
    Foreign(ForeignView),
}

pub struct VarDeclaratorView {
    pub name: PatView,
    pub init: Option<ExprView>,
}

pub struct VarDeclView {
    pub kind: VarKind,
    pub decls: Seq<VarDeclaratorView>,
}

pub enum ForInitView {
    Var(VarDeclView),
    Expr(ExprView),
}

pub enum ForHeadView {
    Var(VarDeclView),
    Pat(PatView),
}

pub struct CatchClauseView {
    pub param: Option<PatView>,
    pub body: Seq<StmtView>,
}

#[allow(inconsistent_fields)]
pub enum StmtView {
    Block(Seq<StmtView>),
    Expr(ExprView),
    FnDecl { name: Seq<char>, function: FunctionView },
    Interface(InterfaceDeclView),
    Var(VarDeclView),
    For {
        init: Option<ForInitView>,
        test: Option<ExprView>,
        update: Option<ExprView>,
        body: Box<StmtView>,
    },
    ForIn { left: ForHeadView, right: ExprView, body: Box<StmtView> },
    ForOf { is_await: bool, left: ForHeadView, right: ExprView, body: Box<StmtView> },
    While { test: ExprView, body: Box<StmtView> },
    DoWhile { body: Box<StmtView>, test: ExprView },
    If { test: ExprView, cons: Box<StmtView>, alt: Option<Box<StmtView>> },
    Return(Option<ExprView>),
    Throw(ExprView),
    Try {
        block: Seq<StmtView>,
        handler: Option<CatchClauseView>,
        finalizer: Option<Seq<StmtView>>,
    },
    Foreign(ForeignView),
}

pub struct ModuleView {
    pub body: Seq<StmtView>,
}

impl View for Lit {
    type V = LitView;

    open spec fn view(&self) -> LitView {
        match self {
            Lit::Str(value) => LitView::Str(value@),
            Lit::Num(text) => LitView::Num(text@),
            Lit::Bool(b) => LitView::Bool(*b),
            Lit::Null => LitView::Null,
        }
    }
}

/// The view of an optional name.
pub open spec fn name_view(name: Option<String>) -> Option<Seq<char>> {
    match name {
        Some(n) => Some(n@),
        None => None,
    }
}

pub open spec fn foreign_view(f: Foreign) -> ForeignView
    decreases f,
{
    ForeignView { key: f.key, exprs: exprs_view(f.exprs), stmts: stmts_view(f.stmts) }
}

pub open spec fn pat_view(p: Pat) -> PatView
    decreases p,
{
    match p {
        Pat::Ident(name) => PatView::Ident(name@),
        Pat::Foreign(f) => PatView::Foreign(foreign_view(f)),
    }
}

/// The views of a list of patterns, in order.
pub open spec fn pats_view(v: Vec<Pat>) -> Seq<PatView>
    decreases v,
{
    Seq::new(
        v@.len(),
        |i: int|
            if 0 <= i < v@.len() {
                pat_view(v@[i])
            } else {
                arbitrary()
            },
    )
}

/// The view of an optional pattern.
pub open spec fn opt_pat_view(p: Option<Pat>) -> Option<PatView>
    decreases p,
{
    match p {
        Some(p) => Some(pat_view(p)),
        None => None,
    }
}

pub open spec fn expr_view(e: Expr) -> ExprView
    decreases e,
{
    match e {
        Expr::Ident(name) => ExprView::Ident(name@),
        Expr::Lit(lit) => ExprView::Lit(lit@),
        Expr::This => ExprView::This,
        Expr::Member(m) => ExprView::Member(member_view(m)),
        Expr::Call { callee, args } => ExprView::Call {
            callee: Box::new(expr_view(*callee)),
            args: exprs_view(args),
        },
        Expr::New { callee, args } => ExprView::New {
            callee: Box::new(expr_view(*callee)),
            args: exprs_view(args),
        },
        Expr::Assign { op, left, right } => ExprView::Assign {
            op,
            left: target_view(left),
            right: Box::new(expr_view(*right)),
        },
        Expr::Bin { op, left, right } => ExprView::Bin {
            op,
            left: Box::new(expr_view(*left)),
            right: Box::new(expr_view(*right)),
        },
        Expr::Unary { op, arg } => ExprView::Unary { op, arg: Box::new(expr_view(*arg)) },
        Expr::Cond { test, cons, alt } => ExprView::Cond {
            test: Box::new(expr_view(*test)),
            cons: Box::new(expr_view(*cons)),
            alt: Box::new(expr_view(*alt)),
        },
        Expr::Array(elems) => ExprView::Array(exprs_view(elems)),
        Expr::Paren(inner) => ExprView::Paren(Box::new(expr_view(*inner))),
        Expr::Arrow { params, body, is_async } => ExprView::Arrow {
            params: pats_view(params),
            body: arrow_body_view(body),
            is_async,
        },
        Expr::Fn { name, function } => ExprView::Fn {
            name: name_view(name),
            function: function_view(function),
        },
        Expr::Await(arg) => ExprView::Await(Box::new(expr_view(*arg))),
        Expr::Foreign(f) => ExprView::Foreign(foreign_view(f)),
    }
}

/// The views of a list of expressions, in order.
pub open spec fn exprs_view(v: Vec<Expr>) -> Seq<ExprView>
    decreases v,
{
    Seq::new(
        v@.len(),
        |i: int|
            if 0 <= i < v@.len() {
                expr_view(v@[i])
            } else {
                arbitrary()
            },
    )
}

/// The view of an optional expression.
pub open spec fn opt_expr_view(e: Option<Expr>) -> Option<ExprView>
    decreases e,
{
    match e {
        Some(e) => Some(expr_view(e)),
        None => None,
    }
}

pub open spec fn member_view(m: MemberExpr) -> MemberExprView
    decreases m,
{
    MemberExprView { obj: Box::new(expr_view(*m.obj)), prop: prop_view(m.prop) }
}

pub open spec fn prop_view(p: MemberProp) -> MemberPropView
    decreases p,
{
    match p {
        MemberProp::Ident(name) => MemberPropView::Ident(name@),
        MemberProp::Computed(key) => MemberPropView::Computed(Box::new(expr_view(*key))),
        MemberProp::PrivateName(name) => MemberPropView::PrivateName(name@),
    }
}

pub open spec fn target_view(t: AssignTarget) -> AssignTargetView
    decreases t,
{
    match t {
        AssignTarget::Ident(name) => AssignTargetView::Ident(name@),
        AssignTarget::Member(m) => AssignTargetView::Member(member_view(m)),
        AssignTarget::Pattern(p) => AssignTargetView::Pattern(pat_view(p)),
    }
}

pub open spec fn function_view(f: Function) -> FunctionView
    decreases f,
{
    FunctionView {
        params: pats_view(f.params),
        body: stmts_view(f.body),
        is_async: f.is_async,
        is_generator: f.is_generator,
    }
}

pub open spec fn arrow_body_view(b: ArrowBody) -> ArrowBodyView
    decreases b,
{
    match b {
        ArrowBody::Block(stmts) => ArrowBodyView::Block(stmts_view(stmts)),
        ArrowBody::Expr(e) => ArrowBodyView::Expr(Box::new(expr_view(*e))),
    }
}

pub open spec fn declarator_view(d: VarDeclarator) -> VarDeclaratorView
    decreases d,
{
    VarDeclaratorView { name: pat_view(d.name), init: opt_expr_view(d.init) }
}

pub open spec fn var_decl_view(d: VarDecl) -> VarDeclView
    decreases d,
{
    VarDeclView {
        kind: d.kind,
        decls: Seq::new(
            d.decls@.len(),
            |i: int|
                if 0 <= i < d.decls@.len() {
                    declarator_view(d.decls@[i])
                } else {
                    arbitrary()
                },
        ),
    }
}

pub open spec fn for_init_view(init: ForInit) -> ForInitView
    decreases init,
{
    match init {
        ForInit::Var(d) => ForInitView::Var(var_decl_view(d)),
        ForInit::Expr(e) => ForInitView::Expr(expr_view(e)),
    }
}

/// The view of an optional loop initialiser.
pub open spec fn opt_for_init_view(init: Option<ForInit>) -> Option<ForInitView>
    decreases init,
{
    match init {
        Some(init) => Some(for_init_view(init)),
        None => None,
    }
}

pub open spec fn for_head_view(head: ForHead) -> ForHeadView
    decreases head,
{
    match head {
        ForHead::Var(d) => ForHeadView::Var(var_decl_view(d)),
        ForHead::Pat(p) => ForHeadView::Pat(pat_view(p)),
    }
}

pub open spec fn catch_view(c: CatchClause) -> CatchClauseView
    decreases c,
{
    CatchClauseView { param: opt_pat_view(c.param), body: stmts_view(c.body) }
}

pub open spec fn stmt_view(s: Stmt) -> StmtView
    decreases s,
{
    match s {
        Stmt::Block(stmts) => StmtView::Block(stmts_view(stmts)),
        Stmt::Expr(e) => StmtView::Expr(expr_view(e)),
        Stmt::FnDecl { name, function } => StmtView::FnDecl {
            name: name@,
            function: function_view(function),
        },
        Stmt::Interface(decl) => StmtView::Interface(decl@),
        Stmt::Var(d) => StmtView::Var(var_decl_view(d)),
        Stmt::For { init, test, update, body } => StmtView::For {
            init: opt_for_init_view(init),
            test: opt_expr_view(test),
            update: opt_expr_view(update),
            body: Box::new(stmt_view(*body)),
        },
        Stmt::ForIn { left, right, body } => StmtView::ForIn {
            left: for_head_view(left),
            right: expr_view(right),
            body: Box::new(stmt_view(*body)),
        },
        Stmt::ForOf { is_await, left, right, body } => StmtView::ForOf {
            is_await,
            left: for_head_view(left),
            right: expr_view(right),
            body: Box::new(stmt_view(*body)),
        },
        Stmt::While { test, body } => StmtView::While {
            test: expr_view(test),
            body: Box::new(stmt_view(*body)),
        },
        Stmt::DoWhile { body, test } => StmtView::DoWhile {
            body: Box::new(stmt_view(*body)),
            test: expr_view(test),
        },
        Stmt::If { test, cons, alt } => StmtView::If {
            test: expr_view(test),
            cons: Box::new(stmt_view(*cons)),
            alt: opt_stmt_view(alt),
        },
        Stmt::Return(arg) => StmtView::Return(opt_expr_view(arg)),
        Stmt::Throw(arg) => StmtView::Throw(expr_view(arg)),
        Stmt::Try { block, handler, finalizer } => StmtView::Try {
            block: stmts_view(block),
            handler: opt_catch_view(handler),
            finalizer: opt_stmts_view(finalizer),
        },
        Stmt::Foreign(f) => StmtView::Foreign(foreign_view(f)),
    }
}

/// The view of an optional boxed statement.
pub open spec fn opt_stmt_view(s: Option<Box<Stmt>>) -> Option<Box<StmtView>>
    decreases s,
{
    match s {
        Some(s) => Some(Box::new(stmt_view(*s))),
        None => None,
    }
}

/// The view of an optional catch clause.
pub open spec fn opt_catch_view(c: Option<CatchClause>) -> Option<CatchClauseView>
    decreases c,
{
    match c {
        Some(c) => Some(catch_view(c)),
        None => None,
    }
}

/// The view of an optional list of statements.
pub open spec fn opt_stmts_view(v: Option<Vec<Stmt>>) -> Option<Seq<StmtView>>
    decreases v,
{
    match v {
        Some(v) => Some(stmts_view(v)),
        None => None,
    }
}

/// The views of a list of statements, in order.
pub open spec fn stmts_view(v: Vec<Stmt>) -> Seq<StmtView>
    decreases v,
{
    Seq::new(
        v@.len(),
        |i: int|
            if 0 <= i < v@.len() {
                stmt_view(v@[i])
            } else {
                arbitrary()
            },
    )
}

impl View for Foreign {
    type V = ForeignView;

    open spec fn view(&self) -> ForeignView {
        foreign_view(*self)
    }
}

impl View for Pat {
    type V = PatView;

    open spec fn view(&self) -> PatView {
        pat_view(*self)
    }
}

impl View for Expr {
    type V = ExprView;

    open spec fn view(&self) -> ExprView {
        expr_view(*self)
    }
}

impl View for MemberExpr {
    type V = MemberExprView;

    open spec fn view(&self) -> MemberExprView {
        member_view(*self)
    }
}

impl View for MemberProp {
    type V = MemberPropView;

    open spec fn view(&self) -> MemberPropView {
        prop_view(*self)
    }
}

impl View for AssignTarget {
    type V = AssignTargetView;

    open spec fn view(&self) -> AssignTargetView {
        target_view(*self)
    }
}

impl View for Function {
    type V = FunctionView;

    open spec fn view(&self) -> FunctionView {
        function_view(*self)
    }
}

impl View for ArrowBody {
    type V = ArrowBodyView;

    open spec fn view(&self) -> ArrowBodyView {
        arrow_body_view(*self)
    }
}

impl View for VarDeclarator {
    type V = VarDeclaratorView;

    open spec fn view(&self) -> VarDeclaratorView {
        declarator_view(*self)
    }
}

impl View for VarDecl {
    type V = VarDeclView;

    open spec fn view(&self) -> VarDeclView {
        var_decl_view(*self)
    }
}

impl View for ForInit {
    type V = ForInitView;

    open spec fn view(&self) -> ForInitView {
        for_init_view(*self)
    }
}

impl View for ForHead {
    type V = ForHeadView;

    open spec fn view(&self) -> ForHeadView {
        for_head_view(*self)
    }
}

impl View for CatchClause {
    type V = CatchClauseView;

    open spec fn view(&self) -> CatchClauseView {
        catch_view(*self)
    }
}

impl View for Stmt {
    type V = StmtView;

    open spec fn view(&self) -> StmtView {
        stmt_view(*self)
    }
}

impl View for Module {
    type V = ModuleView;

    open spec fn view(&self) -> ModuleView {
        ModuleView { body: stmts_view(self.body) }
    }
}

} // verus!
