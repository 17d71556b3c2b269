//! What the rewrite does, stated on the view of the syntax tree.
//!
//! Every rule looks at a node whose children are already rewritten, so a node
//! that a rule builds is never matched again by the rule of an ancestor.
use vstd::prelude::*;
use crate::ast::{AssignOp, BinaryOp};
use crate::member_key::static_key;
use crate::model::{
    ArrowBodyView, AssignTargetView, CatchClauseView, ExprView, ForHeadView, ForInitView,
    ForeignView, FunctionView, LitView, MemberExprView, MemberPropView, ModuleView, PatView,
    StmtView, VarDeclView, VarDeclaratorView,
};
use crate::type_tags::type_tags;
use crate::types::{InterfaceDeclView, PropertyKeyView, TsTypeView, TypeElementView};

verus! {

/// The name under which rewritten code reaches the runtime context, unless
/// the caller chooses another.
pub open spec fn default_context() -> Seq<char> {
    "self"@
}

/// The name bound by a `catch` clause that was written without a binding.
pub open spec fn synthetic_error_name() -> Seq<char> {
    "__error__"@
}

/// A string literal.
pub open spec fn str_lit(value: Seq<char>) -> ExprView {
    ExprView::Lit(LitView::Str(value))
}

/// The member access `receiver.name`.
pub open spec fn static_member(receiver: ExprView, name: Seq<char>) -> ExprView {
    ExprView::Member(MemberExprView { obj: Box::new(receiver), prop: MemberPropView::Ident(name) })
}

/// The call `receiver.method(args)`.
pub open spec fn method_call(receiver: ExprView, method: Seq<char>, args: Seq<ExprView>) -> ExprView {
    ExprView::Call { callee: Box::new(static_member(receiver, method)), args }
}

/// The binary operator that a compound assignment operator applies; plain
/// `=` applies none.
pub open spec fn binary_of(op: AssignOp) -> Option<BinaryOp> {
    match op {
        AssignOp::Assign => None,
        AssignOp::AddAssign => Some(BinaryOp::Add),
        AssignOp::SubAssign => Some(BinaryOp::Sub),
        AssignOp::MulAssign => Some(BinaryOp::Mul),
        AssignOp::DivAssign => Some(BinaryOp::Div),
        AssignOp::ModAssign => Some(BinaryOp::Mod),
        AssignOp::LShiftAssign => Some(BinaryOp::LShift),
        AssignOp::RShiftAssign => Some(BinaryOp::RShift),
        AssignOp::ZeroFillRShiftAssign => Some(BinaryOp::ZeroFillRShift),
        AssignOp::BitOrAssign => Some(BinaryOp::BitOr),
        AssignOp::BitXorAssign => Some(BinaryOp::BitXor),
        AssignOp::BitAndAssign => Some(BinaryOp::BitAnd),
        AssignOp::ExpAssign => Some(BinaryOp::Exp),
        AssignOp::AndAssign => Some(BinaryOp::LogicalAnd),
        AssignOp::OrAssign => Some(BinaryOp::LogicalOr),
        AssignOp::NullishAssign => Some(BinaryOp::NullishCoalescing),
    }
}

// ---------------------------------------------------------------------------
// Interface declarations
// ---------------------------------------------------------------------------

/// A declared variable: its name and its type tags.
pub type Variable = (Seq<char>, Seq<Seq<char>>);

/// The name that a property key gives, if it is an identifier or a string
/// literal.
pub open spec fn key_name(key: PropertyKeyView) -> Option<Seq<char>> {
    match key {
        PropertyKeyView::Ident(name) => Some(name),
        PropertyKeyView::Str(value) => Some(value),
        PropertyKeyView::Other => None,
    }
}

/// The tags of an optional type annotation: `any` where there is none.
pub open spec fn annotation_tags(type_ann: Option<TsTypeView>) -> Seq<Seq<char>> {
    match type_ann {
        Some(t) => type_tags(t),
        None => seq!["any"@],
    }
}

/// The variable that one member of an interface declares: a property
/// signature with a usable key declares one, with the tags of its
/// annotation; every other member declares nothing.
pub open spec fn declared_by(member: TypeElementView) -> Option<Variable> {
    match member {
        TypeElementView::Property(p) => match key_name(p.key) {
            Some(name) => Some((name, annotation_tags(p.type_ann))),
            None => None,
        },
        TypeElementView::Other => None,
    }
}

/// `declared_by`, as a function value.
pub open spec fn declaring() -> spec_fn(TypeElementView) -> Option<Variable> {
    |member: TypeElementView| declared_by(member)
}

/// The variables that the members of an interface declare, in source order.
pub open spec fn interface_variables(members: Seq<TypeElementView>) -> Seq<Variable> {
    members.filter_map(declaring())
}

/// The variables that one top-level item declares: those of an interface
/// declaration, and none for any other item.
pub open spec fn item_variables(item: StmtView) -> Seq<Variable> {
    match item {
        StmtView::Interface(decl) => interface_variables(decl.body),
        _ => Seq::empty(),
    }
}

/// `item_variables`, as a function value.
pub open spec fn item_declaring() -> spec_fn(StmtView) -> Seq<Variable> {
    |item: StmtView| item_variables(item)
}

/// The variables that the top-level interface declarations of a program
/// declare, in document order.
pub open spec fn module_variables(items: Seq<StmtView>) -> Seq<Variable> {
    items.flat_map(item_declaring())
}

/// The statement `ctx.declareVariable(name, tag_1, tag_2, ...)`.
pub open spec fn declare_stmt(ctx: Seq<char>, v: Variable) -> StmtView {
    StmtView::Expr(
        method_call(
            ExprView::Ident(ctx),
            "declareVariable"@,
            seq![str_lit(v.0)] + v.1.map_values(|tag: Seq<char>| str_lit(tag)),
        ),
    )
}

/// The block that takes the place of an interface declaration: one
/// declaration call for each variable it declares, in source order.
pub open spec fn declarations_block(decl: InterfaceDeclView, ctx: Seq<char>) -> StmtView {
    StmtView::Block(
        interface_variables(decl.body).map_values(|v: Variable| declare_stmt(ctx, v)),
    )
}

// ---------------------------------------------------------------------------
// Loops
// ---------------------------------------------------------------------------

/// The cooperative yield `await ctx.delay()`.
pub open spec fn yield_stmt(ctx: Seq<char>) -> StmtView {
    StmtView::Expr(
        ExprView::Await(Box::new(method_call(ExprView::Ident(ctx), "delay"@, Seq::empty()))),
    )
}

/// The statements of a loop body once it is a block: those of the block, or
/// the single statement that stood in its place.
pub open spec fn body_stmts(body: StmtView) -> Seq<StmtView> {
    match body {
        StmtView::Block(stmts) => stmts,
        other => seq![other],
    }
}

/// A loop body with the yield before its own statements.
pub open spec fn yielding_body(body: StmtView, ctx: Seq<char>) -> StmtView {
    StmtView::Block(seq![yield_stmt(ctx)] + body_stmts(body))
}

// ---------------------------------------------------------------------------
// Calls
// ---------------------------------------------------------------------------

/// Whether a callee is one of the two built-in conversions, which are
/// awaited but get no context argument.
pub open spec fn is_plain_builtin(callee: ExprView) -> bool {
    callee == ExprView::Ident("String"@) || callee == ExprView::Ident("Number"@)
}

/// A call as a suspension point: awaited, and with the context before its
/// own arguments unless the callee is a plain built-in.
pub open spec fn suspended_call(callee: ExprView, args: Seq<ExprView>, ctx: Seq<char>) -> ExprView {
    ExprView::Await(
        Box::new(
            ExprView::Call {
                callee: Box::new(callee),
                args: if is_plain_builtin(callee) {
                    args
                } else {
                    seq![ExprView::Ident(ctx)] + args
                },
            },
        ),
    )
}

// ---------------------------------------------------------------------------
// Assignments to members
// ---------------------------------------------------------------------------

/// The value that an assignment stores: the right side of a plain `=`, and
/// `target OP right` for a compound operator.
pub open spec fn value_to_set(op: AssignOp, target: MemberExprView, right: ExprView) -> ExprView {
    match binary_of(op) {
        None => right,
        Some(bin) => ExprView::Bin {
            op: bin,
            left: Box::new(ExprView::Member(target)),
            right: Box::new(right),
        },
    }
}

/// The store that an object stands for: `owner.variables` and
/// `owner.effects` name the owner and the operation that writes to it.
pub open spec fn store_of(obj: ExprView) -> Option<(ExprView, Seq<char>)> {
    match obj {
        ExprView::Member(inner) => if static_key(inner.prop) == Some("variables"@) {
            Some((*inner.obj, "setVariable"@))
        } else if static_key(inner.prop) == Some("effects"@) {
            Some((*inner.obj, "setEffect"@))
        } else {
            None
        },
        _ => None,
    }
}

/// The operation that writes the recognised property `name`.
pub open spec fn setter_name(name: Seq<char>) -> Option<Seq<char>> {
    if name == "x"@ {
        Some("setX"@)
    } else if name == "y"@ {
        Some("setY"@)
    } else if name == "draggable"@ {
        Some("setDraggable"@)
    } else if name == "volume"@ {
        Some("setVolume"@)
    } else if name == "direction"@ {
        Some("pointInDirection"@)
    } else {
        None
    }
}

/// The expression `await receiver.method(name, value)`.
pub open spec fn set_call(
    receiver: ExprView,
    method: Seq<char>,
    name: Seq<char>,
    value: ExprView,
) -> ExprView {
    ExprView::Await(Box::new(method_call(receiver, method, seq![str_lit(name), value])))
}

/// An assignment whose target is a member access: a write to a store or to
/// a recognised property becomes an awaited call, and every other
/// assignment stays as it is.
pub open spec fn member_assignment(op: AssignOp, target: MemberExprView, right: ExprView) -> ExprView {
    let unchanged = ExprView::Assign {
        op,
        left: AssignTargetView::Member(target),
        right: Box::new(right),
    };
    match static_key(target.prop) {
        None => unchanged,
        Some(name) => match store_of(*target.obj) {
            Some((owner, method)) => set_call(owner, method, name, value_to_set(op, target, right)),
            None => match setter_name(name) {
                Some(method) => set_call(
                    *target.obj,
                    method,
                    name,
                    value_to_set(op, target, right),
                ),
                None => unchanged,
            },
        },
    }
}

/// An assignment, its operands already rewritten.
pub open spec fn assignment(op: AssignOp, left: AssignTargetView, right: ExprView) -> ExprView {
    match left {
        AssignTargetView::Member(target) => member_assignment(op, target, right),
        _ => ExprView::Assign { op, left, right: Box::new(right) },
    }
}

// ---------------------------------------------------------------------------
// Catch clauses
// ---------------------------------------------------------------------------

/// The guard `if (name instanceof Scrap.StoopError) throw name;`.
pub open spec fn interrupt_guard(name: Seq<char>) -> StmtView {
    StmtView::If {
        test: ExprView::Bin {
            op: BinaryOp::InstanceOf,
            left: Box::new(ExprView::Ident(name)),
            right: Box::new(static_member(ExprView::Ident("Scrap"@), "StoopError"@)),
        },
        cons: Box::new(StmtView::Throw(ExprView::Ident(name))),
        alt: None,
    }
}

/// A catch clause with the guard before its own statements. A clause
/// without a binding gets the synthetic one; a clause that binds a pattern
/// other than a simple name stays as it is.
pub open spec fn guarded_catch(param: Option<PatView>, body: Seq<StmtView>) -> CatchClauseView {
    match param {
        Some(PatView::Ident(name)) => CatchClauseView {
            param,
            body: seq![interrupt_guard(name)] + body,
        },
        None => CatchClauseView {
            param: Some(PatView::Ident(synthetic_error_name())),
            body: seq![interrupt_guard(synthetic_error_name())] + body,
        },
        Some(_) => CatchClauseView { param, body },
    }
}

// ---------------------------------------------------------------------------
// The traversal
// ---------------------------------------------------------------------------

/// The rewritten expression: its children rewritten, and then the rule for
/// its kind. The other functions of this family do the same for the other
/// kinds of node; where a kind has no rule, only the children change.
pub open spec fn rewrite_expr(e: ExprView, ctx: Seq<char>) -> ExprView
    decreases e,
{
    match e {
        ExprView::Ident(_) | ExprView::Lit(_) | ExprView::This => e,
        ExprView::Member(m) => ExprView::Member(rewrite_member(m, ctx)),
        ExprView::Call { callee, args } => suspended_call(
            rewrite_expr(*callee, ctx),
            rewrite_exprs(args, ctx),
            ctx,
        ),
        ExprView::New { callee, args } => ExprView::New {
            callee: Box::new(rewrite_expr(*callee, ctx)),
            args: rewrite_exprs(args, ctx),
        },
        ExprView::Assign { op, left, right } => assignment(
            op,
            rewrite_target(left, ctx),
            rewrite_expr(*right, ctx),
        ),
        ExprView::Bin { op, left, right } => ExprView::Bin {
            op,
            left: Box::new(rewrite_expr(*left, ctx)),
            right: Box::new(rewrite_expr(*right, ctx)),
        },
        ExprView::Unary { op, arg } => ExprView::Unary {
            op,
            arg: Box::new(rewrite_expr(*arg, ctx)),
        },
        ExprView::Cond { test, cons, alt } => ExprView::Cond {
            test: Box::new(rewrite_expr(*test, ctx)),
            cons: Box::new(rewrite_expr(*cons, ctx)),
            alt: Box::new(rewrite_expr(*alt, ctx)),
        },
        ExprView::Array(elems) => ExprView::Array(rewrite_exprs(elems, ctx)),
        ExprView::Paren(inner) => ExprView::Paren(Box::new(rewrite_expr(*inner, ctx))),
        ExprView::Arrow { params, body, is_async } => ExprView::Arrow {
            params: rewrite_pats(params, ctx),
            body: rewrite_arrow_body(body, ctx),
            is_async: true,
        },
        ExprView::Fn { name, function } => ExprView::Fn {
            name,
            function: rewrite_function(function, ctx),
        },
        ExprView::Await(arg) => ExprView::Await(Box::new(rewrite_expr(*arg, ctx))),
        ExprView::Foreign(f) => ExprView::Foreign(rewrite_foreign(f, ctx)),
    }
}

/// A construct outside the subset keeps its key, and what stands directly
/// under it is rewritten in place.
pub open spec fn rewrite_foreign(f: ForeignView, ctx: Seq<char>) -> ForeignView
    decreases f,
{
    ForeignView {
        key: f.key,
        exprs: rewrite_exprs(f.exprs, ctx),
        stmts: rewrite_stmts(f.stmts, ctx),
    }
}

pub open spec fn rewrite_pat(p: PatView, ctx: Seq<char>) -> PatView
    decreases p,
{
    match p {
        PatView::Ident(_) => p,
        PatView::Foreign(f) => PatView::Foreign(rewrite_foreign(f, ctx)),
    }
}

pub open spec fn rewrite_pats(s: Seq<PatView>, ctx: Seq<char>) -> Seq<PatView>
    decreases s,
{
    Seq::new(
        s.len(),
        |i: int|
            if 0 <= i < s.len() {
                rewrite_pat(s[i], ctx)
            } else {
                arbitrary()
            },
    )
}

pub open spec fn rewrite_exprs(s: Seq<ExprView>, ctx: Seq<char>) -> Seq<ExprView>
    decreases s,
{
    Seq::new(
        s.len(),
        |i: int|
            if 0 <= i < s.len() {
                rewrite_expr(s[i], ctx)
            } else {
                arbitrary()
            },
    )
}

pub open spec fn rewrite_opt_expr(e: Option<ExprView>, ctx: Seq<char>) -> Option<ExprView>
    decreases e,
{
    match e {
        Some(e) => Some(rewrite_expr(e, ctx)),
        None => None,
    }
}

pub open spec fn rewrite_member(m: MemberExprView, ctx: Seq<char>) -> MemberExprView
    decreases m,
{
    MemberExprView { obj: Box::new(rewrite_expr(*m.obj, ctx)), prop: rewrite_prop(m.prop, ctx) }
}

pub open spec fn rewrite_prop(p: MemberPropView, ctx: Seq<char>) -> MemberPropView
    decreases p,
{
    match p {
        MemberPropView::Computed(key) => MemberPropView::Computed(
            Box::new(rewrite_expr(*key, ctx)),
        ),
        _ => p,
    }
}

pub open spec fn rewrite_target(t: AssignTargetView, ctx: Seq<char>) -> AssignTargetView
    decreases t,
{
    match t {
        AssignTargetView::Member(m) => AssignTargetView::Member(rewrite_member(m, ctx)),
        AssignTargetView::Pattern(p) => AssignTargetView::Pattern(rewrite_pat(p, ctx)),
        AssignTargetView::Ident(_) => t,
    }
}

/// A function: suspension-capable, whatever its body does.
pub open spec fn rewrite_function(f: FunctionView, ctx: Seq<char>) -> FunctionView
    decreases f,
{
    FunctionView {
        params: rewrite_pats(f.params, ctx),
        body: rewrite_stmts(f.body, ctx),
        is_async: true,
        is_generator: f.is_generator,
    }
}

pub open spec fn rewrite_arrow_body(b: ArrowBodyView, ctx: Seq<char>) -> ArrowBodyView
    decreases b,
{
    match b {
        ArrowBodyView::Block(stmts) => ArrowBodyView::Block(rewrite_stmts(stmts, ctx)),
        ArrowBodyView::Expr(e) => ArrowBodyView::Expr(Box::new(rewrite_expr(*e, ctx))),
    }
}

pub open spec fn rewrite_declarator(d: VarDeclaratorView, ctx: Seq<char>) -> VarDeclaratorView
    decreases d,
{
    VarDeclaratorView { name: rewrite_pat(d.name, ctx), init: rewrite_opt_expr(d.init, ctx) }
}

pub open spec fn rewrite_var_decl(d: VarDeclView, ctx: Seq<char>) -> VarDeclView
    decreases d,
{
    VarDeclView {
        kind: d.kind,
        decls: Seq::new(
            d.decls.len(),
            |i: int|
                if 0 <= i < d.decls.len() {
                    rewrite_declarator(d.decls[i], ctx)
                } else {
                    arbitrary()
                },
        ),
    }
}

pub open spec fn rewrite_for_init(init: Option<ForInitView>, ctx: Seq<char>) -> Option<ForInitView>
    decreases init,
{
    match init {
        Some(ForInitView::Var(d)) => Some(ForInitView::Var(rewrite_var_decl(d, ctx))),
        Some(ForInitView::Expr(e)) => Some(ForInitView::Expr(rewrite_expr(e, ctx))),
        None => None,
    }
}

pub open spec fn rewrite_for_head(head: ForHeadView, ctx: Seq<char>) -> ForHeadView
    decreases head,
{
    match head {
        ForHeadView::Var(d) => ForHeadView::Var(rewrite_var_decl(d, ctx)),
        ForHeadView::Pat(p) => ForHeadView::Pat(rewrite_pat(p, ctx)),
    }
}

/// The rewritten catch clause: its statements rewritten, and then the guard.
/// The binding is not rewritten.
pub open spec fn rewrite_catch(c: CatchClauseView, ctx: Seq<char>) -> CatchClauseView
    decreases c,
{
    guarded_catch(c.param, rewrite_stmts(c.body, ctx))
}

/// The rewritten statement: its children rewritten, and then the rule for
/// its kind. A loop gets its yield, and an interface declaration, which has no
/// children to rewrite, becomes its block of declarations.
pub open spec fn rewrite_stmt(s: StmtView, ctx: Seq<char>) -> StmtView
    decreases s,
{
    match s {
        StmtView::Block(stmts) => StmtView::Block(rewrite_stmts(stmts, ctx)),
        StmtView::Expr(e) => StmtView::Expr(rewrite_expr(e, ctx)),
        StmtView::FnDecl { name, function } => StmtView::FnDecl {
            name,
            function: rewrite_function(function, ctx),
        },
        StmtView::Interface(decl) => declarations_block(decl, ctx),
        StmtView::Var(d) => StmtView::Var(rewrite_var_decl(d, ctx)),
        StmtView::For { init, test, update, body } => StmtView::For {
            init: rewrite_for_init(init, ctx),
            test: rewrite_opt_expr(test, ctx),
            update: rewrite_opt_expr(update, ctx),
            body: Box::new(yielding_body(rewrite_stmt(*body, ctx), ctx)),
        },
        StmtView::ForIn { left, right, body } => StmtView::ForIn {
            left: rewrite_for_head(left, ctx),
            right: rewrite_expr(right, ctx),
            body: Box::new(yielding_body(rewrite_stmt(*body, ctx), ctx)),
        },
        StmtView::ForOf { is_await, left, right, body } => StmtView::ForOf {
            is_await,
            left: rewrite_for_head(left, ctx),
            right: rewrite_expr(right, ctx),
            body: Box::new(yielding_body(rewrite_stmt(*body, ctx), ctx)),
        },
        StmtView::While { test, body } => StmtView::While {
            test: rewrite_expr(test, ctx),
            body: Box::new(yielding_body(rewrite_stmt(*body, ctx), ctx)),
        },
        StmtView::DoWhile { body, test } => StmtView::DoWhile {
            body: Box::new(yielding_body(rewrite_stmt(*body, ctx), ctx)),
            test: rewrite_expr(test, ctx),
        },
        StmtView::If { test, cons, alt } => StmtView::If {
            test: rewrite_expr(test, ctx),
            cons: Box::new(rewrite_stmt(*cons, ctx)),
            alt: rewrite_opt_stmt(alt, ctx),
        },
        StmtView::Return(arg) => StmtView::Return(rewrite_opt_expr(arg, ctx)),
        StmtView::Throw(arg) => StmtView::Throw(rewrite_expr(arg, ctx)),
        StmtView::Try { block, handler, finalizer } => StmtView::Try {
            block: rewrite_stmts(block, ctx),
            handler: rewrite_opt_catch(handler, ctx),
            finalizer: rewrite_opt_stmts(finalizer, ctx),
        },
        StmtView::Foreign(f) => StmtView::Foreign(rewrite_foreign(f, ctx)),
    }
}

pub open spec fn rewrite_opt_stmt(s: Option<Box<StmtView>>, ctx: Seq<char>) -> Option<Box<StmtView>>
    decreases s,
{
    match s {
        Some(s) => Some(Box::new(rewrite_stmt(*s, ctx))),
        None => None,
    }
}

pub open spec fn rewrite_opt_catch(c: Option<CatchClauseView>, ctx: Seq<char>) -> Option<
    CatchClauseView,
>
    decreases c,
{
    match c {
        Some(c) => Some(rewrite_catch(c, ctx)),
        None => None,
    }
}

pub open spec fn rewrite_opt_stmts(s: Option<Seq<StmtView>>, ctx: Seq<char>) -> Option<
    Seq<StmtView>,
>
    decreases s,
{
    match s {
        Some(s) => Some(rewrite_stmts(s, ctx)),
        None => None,
    }
}

pub open spec fn rewrite_stmts(s: Seq<StmtView>, ctx: Seq<char>) -> Seq<StmtView>
    decreases s,
{
    Seq::new(
        s.len(),
        |i: int|
            if 0 <= i < s.len() {
                rewrite_stmt(s[i], ctx)
            } else {
                arbitrary()
            },
    )
}

/// The rewritten program: every top-level item rewritten, in place and in
/// order.
pub open spec fn rewrite_module(m: ModuleView, ctx: Seq<char>) -> ModuleView {
    ModuleView { body: rewrite_stmts(m.body, ctx) }
}

} // verus!
