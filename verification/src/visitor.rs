//! The rewrite engine: a children-first walk that rebuilds the tree, with one
//! rule for each kind of node that the host runtime has to see.
use vstd::prelude::*;
use vstd::string::StringExecFns;
use crate::ast::{
    ArrowBody, AssignOp, AssignTarget, BinaryOp, CatchClause, Expr, ForHead, ForInit, Foreign,
    Function, Lit, MemberExpr, MemberProp, Module, Pat, Stmt, VarDecl, VarDeclarator,
};
use crate::copy::{copy_lit, copy_member, copy_name, copy_opt_pat};
use crate::member_key::{get_property, is_property, text_is};
use crate::model::{
    exprs_view, name_view, opt_catch_view, opt_expr_view, opt_for_init_view, opt_pat_view,
    opt_stmt_view, opt_stmts_view, pats_view, stmts_view, AssignTargetView, ExprView,
    MemberExprView, MemberPropView, StmtView,
};
use crate::rules::{
    assignment, binary_of, declarations_block, declare_stmt, default_context, guarded_catch,
    interrupt_guard, is_plain_builtin, member_assignment, method_call, rewrite_arrow_body,
    rewrite_catch, rewrite_declarator, rewrite_expr, rewrite_foreign, rewrite_pat, rewrite_pats,
    rewrite_exprs, rewrite_for_head, rewrite_for_init, rewrite_function, rewrite_member,
    rewrite_module, rewrite_opt_catch, rewrite_opt_expr, rewrite_opt_stmt, rewrite_opt_stmts,
    rewrite_prop, rewrite_stmt, rewrite_stmts, rewrite_target, rewrite_var_decl, set_call,
    setter_name, static_member, str_lit, suspended_call, synthetic_error_name, value_to_set,
    yield_stmt, yielding_body,
};
use crate::type_tags::texts;
use crate::types::InterfaceDecl;
use crate::variables::{interface_variables_of, variables_view};

verus! {

/// The rewrite engine. It holds the one thing the rules depend on: the name
/// under which rewritten code reaches the runtime context.
pub struct JavaScript {
    pub context: String,
}

/// An engine that names the runtime context `self`.
pub fn javascript() -> (engine: JavaScript)
    ensures
        engine.context@ == default_context(),
{
    JavaScript { context: String::from_str("self") }
}

impl Default for JavaScript {
    /// An engine that names the runtime context `self`.
    fn default() -> (engine: JavaScript)
        ensures
            engine.context@ == default_context(),
    {
        javascript()
    }
}

/// The identifier `name`.
pub fn ident_of(name: &str) -> (e: Expr)
    ensures
        e@ == ExprView::Ident(name@),
{
    Expr::Ident(String::from_str(name))
}

/// The identifier that `name` holds.
pub fn ident_from(name: String) -> (e: Expr)
    ensures
        e@ == ExprView::Ident(name@),
{
    Expr::Ident(name)
}

/// The assignment `target op right`, as it stands.
pub fn plain_assignment(op: AssignOp, target: MemberExpr, right: Expr) -> (e: Expr)
    ensures
        e@ == (ExprView::Assign {
            op,
            left: AssignTargetView::Member(target@),
            right: Box::new(right@),
        }),
{
    let left = AssignTarget::Member(target);
    assert(left@ == AssignTargetView::Member(target@));
    Expr::Assign { op, left, right: Box::new(right) }
}

/// The string literal that holds `value`.
pub fn str_lit_of(value: String) -> (e: Expr)
    ensures
        e@ == str_lit(value@),
{
    Expr::Lit(Lit::Str(value))
}

/// The member access `receiver.name`.
pub fn static_member_of(receiver: Expr, name: &str) -> (e: Expr)
    ensures
        e@ == static_member(receiver@, name@),
{
    let prop = MemberProp::Ident(String::from_str(name));
    assert(prop@ == MemberPropView::Ident(name@));
    let member = MemberExpr { obj: Box::new(receiver), prop };
    assert(member@ == MemberExprView { obj: Box::new(receiver@), prop: prop@ });
    Expr::Member(member)
}

/// The call `receiver.method(args)`.
pub fn method_call_of(receiver: Expr, method: &str, args: Vec<Expr>) -> (e: Expr)
    ensures
        e@ == method_call(receiver@, method@, exprs_view(args)),
{
    let callee = static_member_of(receiver, method);
    Expr::Call { callee: Box::new(callee), args }
}

/// The expression `await arg`.
pub fn await_of(arg: Expr) -> (e: Expr)
    ensures
        e@ == ExprView::Await(Box::new(arg@)),
{
    Expr::Await(Box::new(arg))
}

/// The binary operator that a compound assignment operator applies.
pub fn compound_operator(op: AssignOp) -> (bin: Option<BinaryOp>)
    ensures
        bin == binary_of(op),
{
    match op {
        AssignOp::Assign => None,
        AssignOp::AddAssign => Some(BinaryOp::Add),
        AssignOp::SubAssign => Some(BinaryOp::Sub),
        AssignOp::MulAssign => Some(BinaryOp::Mul),
        AssignOp::DivAssign => Some(BinaryOp::Div),
        AssignOp::ModAssign => Some(BinaryOp::Mod),
        AssignOp::LShiftAssign => Some(BinaryOp::LShift),
        AssignOp::RShiftAssign => Some(BinaryOp::RShift),
        AssignOp::ZeroFillRShiftAssign => Some(BinaryOp::ZeroFillRShift),
        AssignOp::BitOrAssign => Some(BinaryOp::BitOr),
        AssignOp::BitXorAssign => Some(BinaryOp::BitXor),
        AssignOp::BitAndAssign => Some(BinaryOp::BitAnd),
        AssignOp::ExpAssign => Some(BinaryOp::Exp),
        AssignOp::AndAssign => Some(BinaryOp::LogicalAnd),
        AssignOp::OrAssign => Some(BinaryOp::LogicalOr),
        AssignOp::NullishAssign => Some(BinaryOp::NullishCoalescing),
    }
}

/// The operation that writes the recognised property `name`, if it is one.
pub fn setter_for(name: &String) -> (method: Option<String>)
    ensures
        name_view(method) == setter_name(name@),
{
    if text_is(name, "x") {
        Some(String::from_str("setX"))
    } else if text_is(name, "y") {
        Some(String::from_str("setY"))
    } else if text_is(name, "draggable") {
        Some(String::from_str("setDraggable"))
    } else if text_is(name, "volume") {
        Some(String::from_str("setVolume"))
    } else if text_is(name, "direction") {
        Some(String::from_str("pointInDirection"))
    } else {
        None
    }
}

/// The expression `await receiver.method(name, value)`.
pub fn set_call_of(receiver: Expr, method: &str, name: String, value: Expr) -> (e: Expr)
    ensures
        e@ == set_call(receiver@, method@, name@, value@),
{
    let mut args: Vec<Expr> = Vec::new();
    args.push(str_lit_of(name));
    args.push(value);
    assert(exprs_view(args) =~= seq![str_lit(name@), value@]);
    await_of(method_call_of(receiver, method, args))
}

/// The guard that rethrows an interrupt before a handler runs.
pub fn interrupt_guard_of(name: &String) -> (guard: Stmt)
    ensures
        guard@ == interrupt_guard(name@),
{
    let caught = ident_from(name.clone());
    let sentinel = static_member_of(ident_of("Scrap"), "StoopError");
    let test = Expr::Bin {
        op: BinaryOp::InstanceOf,
        left: Box::new(caught),
        right: Box::new(sentinel),
    };
    assert(test@ == ExprView::Bin {
        op: BinaryOp::InstanceOf,
        left: Box::new(caught@),
        right: Box::new(sentinel@),
    });
    let rethrow = Stmt::Throw(ident_from(name.clone()));
    assert(rethrow@ == StmtView::Throw(ExprView::Ident(name@)));
    assert(opt_stmt_view(None) == None::<Box<StmtView>>);
    Stmt::If { test, cons: Box::new(rethrow), alt: None }
}

/// A catch clause with the interrupt guard before its own statements.
pub fn guard_catch(param: Option<Pat>, body: Vec<Stmt>) -> (clause: CatchClause)
    ensures
        clause@ == guarded_catch(opt_pat_view(param), stmts_view(body)),
{
    let mut body = body;
    let ghost own = stmts_view(body);
    match param {
        Some(Pat::Ident(name)) => {
            let guard = interrupt_guard_of(&name);
            body.insert(0, guard);
            assert(stmts_view(body) =~= seq![interrupt_guard(name@)] + own);
            CatchClause { param: Some(Pat::Ident(name)), body }
        },
        None => {
            let name = String::from_str("__error__");
            let guard = interrupt_guard_of(&name);
            body.insert(0, guard);
            assert(stmts_view(body) =~= seq![interrupt_guard(synthetic_error_name())] + own);
            CatchClause { param: Some(Pat::Ident(name)), body }
        },
        Some(other) => CatchClause { param: Some(other), body },
    }
}

impl JavaScript {
    /// An engine that names the runtime context `context`.
    pub fn new(context: String) -> (engine: JavaScript)
        ensures
            engine.context@ == context@,
    {
        JavaScript { context }
    }

    /// A reference to the runtime context.
    pub fn context_ref(&self) -> (e: Expr)
        ensures
            e@ == ExprView::Ident(self.context@),
    {
        Expr::Ident(self.context.clone())
    }

    /// The cooperative yield `await context.delay()`.
    pub fn yield_stmt_of(&self) -> (s: Stmt)
        ensures
            s@ == yield_stmt(self.context@),
    {
        let args: Vec<Expr> = Vec::new();
        assert(exprs_view(args) =~= Seq::empty());
        Stmt::Expr(await_of(method_call_of(self.context_ref(), "delay", args)))
    }

    /// The loop rule: the body becomes a block that yields before its own
    /// statements run.
    pub fn yield_body(&self, body: Stmt) -> (out: Stmt)
        ensures
            out@ == yielding_body(body@, self.context@),
    {
        let ghost given = body@;
        let mut stmts = match body {
            Stmt::Block(stmts) => stmts,
            other => {
                let mut one: Vec<Stmt> = Vec::new();
                one.push(other);
                assert(stmts_view(one) =~= seq![given]);
                one
            },
        };
        let ghost own = stmts_view(stmts);
        stmts.insert(0, self.yield_stmt_of());
        assert(stmts_view(stmts) =~= seq![yield_stmt(self.context@)] + own);
        Stmt::Block(stmts)
    }

    /// The statement `context.declareVariable(name, tag_1, tag_2, ...)`.
    pub fn declare_stmt_of(&self, name: &String, tags: &Vec<String>) -> (s: Stmt)
        ensures
            s@ == declare_stmt(self.context@, (name@, texts(tags@))),
    {
        let mut args: Vec<Expr> = Vec::new();
        args.push(str_lit_of(name.clone()));
        let mut i: usize = 0;
        while i < tags.len()
            invariant
                i <= tags.len(),
                args.len() == i + 1,
                args@[0]@ == str_lit(name@),
                forall|j: int| 0 <= j < i ==> args@[j + 1]@ == str_lit(tags@[j]@),
            decreases tags.len() - i,
        {
            args.push(str_lit_of(tags[i].clone()));
            i += 1;
        }
        assert(exprs_view(args) =~= seq![str_lit(name@)] + texts(tags@).map_values(
            |tag: Seq<char>| str_lit(tag),
        ));
        Stmt::Expr(method_call_of(self.context_ref(), "declareVariable", args))
    }

    /// The interface rule: the declaration becomes a block with one
    /// declaration call for each variable it declares.
    pub fn declare_variables(&self, decl: &InterfaceDecl) -> (out: Stmt)
        ensures
            out@ == declarations_block(decl@, self.context@),
    {
        let vars = interface_variables_of(decl);
        let mut stmts: Vec<Stmt> = Vec::new();
        let mut i: usize = 0;
        while i < vars.len()
            invariant
                i <= vars.len(),
                stmts.len() == i,
                forall|j: int|
                    0 <= j < i ==> stmts@[j]@ == declare_stmt(
                        self.context@,
                        (vars@[j].0@, texts(vars@[j].1@)),
                    ),
            decreases vars.len() - i,
        {
            stmts.push(self.declare_stmt_of(&vars[i].0, &vars[i].1));
            i += 1;
        }
        assert(stmts_view(stmts) =~= variables_view(vars@).map_values(
            |v: (Seq<char>, Seq<Seq<char>>)| declare_stmt(self.context@, v),
        ));
        Stmt::Block(stmts)
    }

    /// The call rule: the call is awaited, and gets the context before its
    /// own arguments unless its callee is a plain built-in.
    pub fn suspend_call(&self, callee: Expr, args: Vec<Expr>) -> (out: Expr)
        ensures
            out@ == suspended_call(callee@, exprs_view(args), self.context@),
    {
        let mut args = args;
        let ghost own = exprs_view(args);
        let plain = match &callee {
            Expr::Ident(name) => text_is(name, "String") || text_is(name, "Number"),
            _ => false,
        };
        assert(plain == is_plain_builtin(callee@));
        if !plain {
            args.insert(0, self.context_ref());
            assert(exprs_view(args) =~= seq![ExprView::Ident(self.context@)] + own);
        }
        await_of(Expr::Call { callee: Box::new(callee), args })
    }

    /// The assignment rule for a target that is a member access.
    pub fn assign_member(&self, op: AssignOp, target: MemberExpr, right: Expr) -> (out: Expr)
        ensures
            out@ == member_assignment(op, target@, right@),
    {
        assert(target@.prop == target.prop@);
        assert(*target@.obj == (*target.obj)@);
        let name = match get_property(&target) {
            Some(name) => name,
            None => {
                return plain_assignment(op, target, right);
            },
        };
        let store: Option<String> = match &*target.obj {
            Expr::Member(inner) => {
                assert((*target.obj)@ == ExprView::Member(inner@));
                if is_property(inner, "variables") {
                    Some(String::from_str("setVariable"))
                } else if is_property(inner, "effects") {
                    Some(String::from_str("setEffect"))
                } else {
                    None
                }
            },
            _ => None,
        };
        let in_store = store.is_some();
        let method = match store {
            Some(method) => Some(method),
            None => setter_for(&name),
        };
        let method = match method {
            Some(method) => method,
            None => {
                return plain_assignment(op, target, right);
            },
        };
        let value = match compound_operator(op) {
            None => right,
            Some(bin) => {
                let read = Expr::Member(copy_member(&target));
                assert(read@ == ExprView::Member(target@));
                Expr::Bin { op: bin, left: Box::new(read), right: Box::new(right) }
            },
        };
        assert(value@ == value_to_set(op, target@, right@));
        let receiver = if in_store {
            match *target.obj {
                Expr::Member(inner) => *inner.obj,
                other => other,
            }
        } else {
            *target.obj
        };
        set_call_of(receiver, method.as_str(), name, value)
    }

    /// Rewrites an expression: its children first, then the expression
    /// itself by the rule for its kind.
    pub fn visit_expr(&self, node: &Expr) -> (out: Expr)
        ensures
            out@ == rewrite_expr(node@, self.context@),
        decreases node,
    {
        match node {
            Expr::Ident(name) => Expr::Ident(name.clone()),
            Expr::Lit(lit) => Expr::Lit(copy_lit(lit)),
            Expr::This => Expr::This,
            Expr::Member(m) => Expr::Member(self.visit_member(m)),
            Expr::Call { callee, args } => {
                let callee = self.visit_expr(callee);
                let args = self.visit_exprs(args);
                self.suspend_call(callee, args)
            },
            Expr::New { callee, args } => Expr::New {
                callee: Box::new(self.visit_expr(callee)),
                args: self.visit_exprs(args),
            },
            Expr::Assign { op, left, right } => {
                let value = self.visit_expr(right);
                assert(rewrite_target(left@, self.context@) == match left@ {
                    AssignTargetView::Member(m) => AssignTargetView::Member(
                        rewrite_member(m, self.context@),
                    ),
                    AssignTargetView::Pattern(p) => AssignTargetView::Pattern(
                        rewrite_pat(p, self.context@),
                    ),
                    other => other,
                });
                match left {
                    AssignTarget::Member(target) => {
                        let target = self.visit_member(target);
                        self.assign_member(*op, target, value)
                    },
                    AssignTarget::Ident(name) => {
                        let kept = AssignTarget::Ident(name.clone());
                        assert(kept@ == left@);
                        Expr::Assign { op: *op, left: kept, right: Box::new(value) }
                    },
                    AssignTarget::Pattern(p) => {
                        let pattern = AssignTarget::Pattern(self.visit_pat(p));
                        assert(pattern@ == rewrite_target(left@, self.context@));
                        Expr::Assign { op: *op, left: pattern, right: Box::new(value) }
                    },
                }
            },
            Expr::Bin { op, left, right } => Expr::Bin {
                op: *op,
                left: Box::new(self.visit_expr(left)),
                right: Box::new(self.visit_expr(right)),
            },
            Expr::Unary { op, arg } => Expr::Unary { op: *op, arg: Box::new(self.visit_expr(arg)) },
            Expr::Cond { test, cons, alt } => Expr::Cond {
                test: Box::new(self.visit_expr(test)),
                cons: Box::new(self.visit_expr(cons)),
                alt: Box::new(self.visit_expr(alt)),
            },
            Expr::Array(elems) => Expr::Array(self.visit_exprs(elems)),
            Expr::Paren(inner) => Expr::Paren(Box::new(self.visit_expr(inner))),
            Expr::Arrow { params, body, is_async: _ } => Expr::Arrow {
                params: self.visit_pats(params),
                body: self.visit_arrow_body(body),
                is_async: true,
            },
            Expr::Fn { name, function } => Expr::Fn {
                name: copy_name(name),
                function: self.visit_function(function),
            },
            Expr::Await(arg) => Expr::Await(Box::new(self.visit_expr(arg))),
            Expr::Foreign(f) => Expr::Foreign(self.visit_foreign(f)),
        }
    }

    /// Rewrites what stands directly under a construct outside the subset.
    pub fn visit_foreign(&self, node: &Foreign) -> (out: Foreign)
        ensures
            out@ == rewrite_foreign(node@, self.context@),
        decreases node,
    {
        Foreign {
            key: node.key,
            exprs: self.visit_exprs(&node.exprs),
            stmts: self.visit_stmts(&node.stmts),
        }
    }

    pub fn visit_pat(&self, node: &Pat) -> (out: Pat)
        ensures
            out@ == rewrite_pat(node@, self.context@),
        decreases node,
    {
        match node {
            Pat::Ident(name) => Pat::Ident(name.clone()),
            Pat::Foreign(f) => Pat::Foreign(self.visit_foreign(f)),
        }
    }

    /// Rewrites each pattern of a list, in place and in order.
    pub fn visit_pats(&self, nodes: &Vec<Pat>) -> (out: Vec<Pat>)
        ensures
            pats_view(out) == rewrite_pats(pats_view(*nodes), self.context@),
        decreases nodes,
    {
        let mut out: Vec<Pat> = Vec::new();
        let mut i: usize = 0;
        while i < nodes.len()
            invariant
                i <= nodes.len(),
                out.len() == i,
                forall|j: int|
                    0 <= j < i ==> out@[j]@ == rewrite_pat(nodes@[j]@, self.context@),
            decreases nodes.len() - i,
        {
            out.push(self.visit_pat(&nodes[i]));
            i += 1;
        }
        assert(pats_view(out) =~= rewrite_pats(pats_view(*nodes), self.context@));
        out
    }

    /// Rewrites each expression of a list, in place and in order.
    pub fn visit_exprs(&self, nodes: &Vec<Expr>) -> (out: Vec<Expr>)
        ensures
            exprs_view(out) == rewrite_exprs(exprs_view(*nodes), self.context@),
        decreases nodes,
    {
        let mut out: Vec<Expr> = Vec::new();
        let mut i: usize = 0;
        while i < nodes.len()
            invariant
                i <= nodes.len(),
                out.len() == i,
                forall|j: int|
                    0 <= j < i ==> out@[j]@ == rewrite_expr(nodes@[j]@, self.context@),
            decreases nodes.len() - i,
        {
            out.push(self.visit_expr(&nodes[i]));
            i += 1;
        }
        assert(exprs_view(out) =~= rewrite_exprs(exprs_view(*nodes), self.context@));
        out
    }

    pub fn visit_opt_expr(&self, node: &Option<Expr>) -> (out: Option<Expr>)
        ensures
            opt_expr_view(out) == rewrite_opt_expr(opt_expr_view(*node), self.context@),
        decreases node,
    {
        match node {
            Some(e) => Some(self.visit_expr(e)),
            None => None,
        }
    }

    pub fn visit_member(&self, node: &MemberExpr) -> (out: MemberExpr)
        ensures
            out@ == rewrite_member(node@, self.context@),
        decreases node,
    {
        MemberExpr { obj: Box::new(self.visit_expr(&node.obj)), prop: self.visit_prop(&node.prop) }
    }

    pub fn visit_prop(&self, node: &MemberProp) -> (out: MemberProp)
        ensures
            out@ == rewrite_prop(node@, self.context@),
        decreases node,
    {
        match node {
            MemberProp::Ident(name) => MemberProp::Ident(name.clone()),
            MemberProp::Computed(key) => MemberProp::Computed(Box::new(self.visit_expr(key))),
            MemberProp::PrivateName(name) => MemberProp::PrivateName(name.clone()),
        }
    }

    /// Rewrites a function: it becomes suspension-capable, whatever its body
    /// does, and its body is rewritten.
    pub fn visit_function(&self, node: &Function) -> (out: Function)
        ensures
            out@ == rewrite_function(node@, self.context@),
        decreases node,
    {
        Function {
            params: self.visit_pats(&node.params),
            body: self.visit_stmts(&node.body),
            is_async: true,
            is_generator: node.is_generator,
        }
    }

    pub fn visit_arrow_body(&self, node: &ArrowBody) -> (out: ArrowBody)
        ensures
            out@ == rewrite_arrow_body(node@, self.context@),
        decreases node,
    {
        match node {
            ArrowBody::Block(stmts) => ArrowBody::Block(self.visit_stmts(stmts)),
            ArrowBody::Expr(e) => ArrowBody::Expr(Box::new(self.visit_expr(e))),
        }
    }

    pub fn visit_var_decl(&self, node: &VarDecl) -> (out: VarDecl)
        ensures
            out@ == rewrite_var_decl(node@, self.context@),
        decreases node,
    {
        let mut decls: Vec<VarDeclarator> = Vec::new();
        let mut i: usize = 0;
        while i < node.decls.len()
            invariant
                i <= node.decls.len(),
                decls.len() == i,
                forall|j: int|
                    0 <= j < i ==> decls@[j]@ == rewrite_declarator(
                        node.decls@[j]@,
                        self.context@,
                    ),
            decreases node.decls.len() - i,
        {
            let one = &node.decls[i];
            decls.push(
                VarDeclarator {
                    name: self.visit_pat(&one.name),
                    init: self.visit_opt_expr(&one.init),
                },
            );
            i += 1;
        }
        let out = VarDecl { kind: node.kind, decls };
        assert(out@.decls =~= rewrite_var_decl(node@, self.context@).decls);
        out
    }

    pub fn visit_for_init(&self, node: &Option<ForInit>) -> (out: Option<ForInit>)
        ensures
            opt_for_init_view(out) == rewrite_for_init(opt_for_init_view(*node), self.context@),
        decreases node,
    {
        match node {
            Some(ForInit::Var(d)) => Some(ForInit::Var(self.visit_var_decl(d))),
            Some(ForInit::Expr(e)) => Some(ForInit::Expr(self.visit_expr(e))),
            None => None,
        }
    }

    pub fn visit_for_head(&self, node: &ForHead) -> (out: ForHead)
        ensures
            out@ == rewrite_for_head(node@, self.context@),
        decreases node,
    {
        match node {
            ForHead::Var(d) => ForHead::Var(self.visit_var_decl(d)),
            ForHead::Pat(p) => ForHead::Pat(self.visit_pat(p)),
        }
    }

    /// Rewrites a catch clause: its body, and then the guard before it.
    pub fn visit_catch_clause(&self, node: &CatchClause) -> (out: CatchClause)
        ensures
            out@ == rewrite_catch(node@, self.context@),
        decreases node,
    {
        let body = self.visit_stmts(&node.body);
        guard_catch(copy_opt_pat(&node.param), body)
    }

    pub fn visit_opt_catch(&self, node: &Option<CatchClause>) -> (out: Option<CatchClause>)
        ensures
            opt_catch_view(out) == rewrite_opt_catch(opt_catch_view(*node), self.context@),
        decreases node,
    {
        match node {
            Some(c) => Some(self.visit_catch_clause(c)),
            None => None,
        }
    }

    /// Rewrites the body of a loop and puts the yield before it.
    pub fn visit_loop_body(&self, body: &Stmt) -> (out: Stmt)
        ensures
            out@ == yielding_body(rewrite_stmt(body@, self.context@), self.context@),
        decreases body, 1int,
    {
        let body = self.visit_stmt(body);
        self.yield_body(body)
    }

    /// Rewrites a statement: its children first, then the statement itself
    /// by the rule for its kind.
    pub fn visit_stmt(&self, node: &Stmt) -> (out: Stmt)
        ensures
            out@ == rewrite_stmt(node@, self.context@),
        decreases node, 0int,
    {
        match node {
            Stmt::Block(stmts) => Stmt::Block(self.visit_stmts(stmts)),
            Stmt::Expr(e) => Stmt::Expr(self.visit_expr(e)),
            Stmt::FnDecl { name, function } => Stmt::FnDecl {
                name: name.clone(),
                function: self.visit_function(function),
            },
            Stmt::Interface(decl) => self.declare_variables(decl),
            Stmt::Var(d) => Stmt::Var(self.visit_var_decl(d)),
            Stmt::For { init, test, update, body } => Stmt::For {
                init: self.visit_for_init(init),
                test: self.visit_opt_expr(test),
                update: self.visit_opt_expr(update),
                body: Box::new(self.visit_loop_body(body)),
            },
            Stmt::ForIn { left, right, body } => Stmt::ForIn {
                left: self.visit_for_head(left),
                right: self.visit_expr(right),
                body: Box::new(self.visit_loop_body(body)),
            },
            Stmt::ForOf { is_await, left, right, body } => Stmt::ForOf {
                is_await: *is_await,
                left: self.visit_for_head(left),
                right: self.visit_expr(right),
                body: Box::new(self.visit_loop_body(body)),
            },
            Stmt::While { test, body } => Stmt::While {
                test: self.visit_expr(test),
                body: Box::new(self.visit_loop_body(body)),
            },
            Stmt::DoWhile { body, test } => Stmt::DoWhile {
                body: Box::new(self.visit_loop_body(body)),
                test: self.visit_expr(test),
            },
            Stmt::If { test, cons, alt } => Stmt::If {
                test: self.visit_expr(test),
                cons: Box::new(self.visit_stmt(cons)),
                alt: self.visit_opt_stmt(alt),
            },
            Stmt::Return(arg) => Stmt::Return(self.visit_opt_expr(arg)),
            Stmt::Throw(arg) => Stmt::Throw(self.visit_expr(arg)),
            Stmt::Try { block, handler, finalizer } => Stmt::Try {
                block: self.visit_stmts(block),
                handler: self.visit_opt_catch(handler),
                finalizer: self.visit_opt_stmts(finalizer),
            },
            Stmt::Foreign(f) => Stmt::Foreign(self.visit_foreign(f)),
        }
    }

    pub fn visit_opt_stmt(&self, node: &Option<Box<Stmt>>) -> (out: Option<Box<Stmt>>)
        ensures
            opt_stmt_view(out) == rewrite_opt_stmt(opt_stmt_view(*node), self.context@),
        decreases node, 0int,
    {
        match node {
            Some(s) => Some(Box::new(self.visit_stmt(s))),
            None => None,
        }
    }

    /// Rewrites each statement of a list, in place and in order.
    pub fn visit_stmts(&self, nodes: &Vec<Stmt>) -> (out: Vec<Stmt>)
        ensures
            stmts_view(out) == rewrite_stmts(stmts_view(*nodes), self.context@),
        decreases nodes, 0int,
    {
        let mut out: Vec<Stmt> = Vec::new();
        let mut i: usize = 0;
        while i < nodes.len()
            invariant
                i <= nodes.len(),
                out.len() == i,
                forall|j: int|
                    0 <= j < i ==> out@[j]@ == rewrite_stmt(nodes@[j]@, self.context@),
            decreases nodes.len() - i,
        {
            out.push(self.visit_stmt(&nodes[i]));
            i += 1;
        }
        assert(stmts_view(out) =~= rewrite_stmts(stmts_view(*nodes), self.context@));
        out
    }

    pub fn visit_opt_stmts(&self, nodes: &Option<Vec<Stmt>>) -> (out: Option<Vec<Stmt>>)
        ensures
            opt_stmts_view(out) == rewrite_opt_stmts(opt_stmts_view(*nodes), self.context@),
        decreases nodes, 0int,
    {
        match nodes {
            Some(stmts) => Some(self.visit_stmts(stmts)),
            None => None,
        }
    }

    /// Rewrites a program.
    pub fn visit_module(&self, program: &Module) -> (out: Module)
        ensures
            out@ == rewrite_module(program@, self.context@),
    {
        Module { body: self.visit_stmts(&program.body) }
    }
}

/// Rewrites a program for a runtime context named `self`.
pub fn transform(program: &Module) -> (out: Module)
    ensures
        out@ == rewrite_module(program@, default_context()),
{
    javascript().visit_module(program)
}

} // verus!
