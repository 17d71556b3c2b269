//! Deep copies of syntax trees, one function for each kind of node. A copy
//! has the view of the tree it was made from.
use vstd::prelude::*;
use crate::ast::{
    ArrowBody, AssignTarget, CatchClause, Expr, ForHead, ForInit, Foreign, Function, Lit,
    MemberExpr, MemberProp, Module, Pat, Stmt, VarDecl, VarDeclarator,
};
use crate::model::{
    exprs_view, name_view, opt_catch_view, opt_expr_view, opt_for_init_view, opt_pat_view,
    opt_stmt_view, opt_stmts_view, pats_view, stmts_view,
};
use crate::types::{
    InterfaceDecl, PropertyKey, PropertySignature, TsEntityName, TsType, TypeElement,
};

verus! {

pub fn copy_type(t: &TsType) -> (out: TsType)
    ensures
        out@ == t@,
    decreases t,
{
    match t {
        TsType::Keyword(k) => TsType::Keyword(*k),
        TsType::Array(elem) => TsType::Array(Box::new(copy_type(elem))),
        TsType::Paren(inner) => TsType::Paren(Box::new(copy_type(inner))),
        TsType::Union(members) => {
            let mut out: Vec<TsType> = Vec::new();
            let mut i: usize = 0;
            while i < members.len()
                invariant
                    i <= members.len(),
                    out.len() == i,
                    t is Union,
                    t->Union_0 == *members,
                    forall|j: int| 0 <= j < i ==> out@[j]@ == members@[j]@,
                decreases members.len() - i,
            {
                out.push(copy_type(&members[i]));
                i += 1;
            }
            let copied = TsType::Union(out);
            assert(copied@->Union_0 =~= t@->Union_0);
            copied
        },
        TsType::Ref(TsEntityName::Ident(name)) => TsType::Ref(TsEntityName::Ident(name.clone())),
        TsType::Ref(TsEntityName::Qualified) => TsType::Ref(TsEntityName::Qualified),
        TsType::Other => TsType::Other,
    }
}

pub fn copy_element(member: &TypeElement) -> (out: TypeElement)
    ensures
        out@ == member@,
{
    match member {
        TypeElement::Property(p) => {
            let key = match &p.key {
                PropertyKey::Ident(name) => PropertyKey::Ident(name.clone()),
                PropertyKey::Str(value) => PropertyKey::Str(value.clone()),
                PropertyKey::Other => PropertyKey::Other,
            };
            let type_ann = match &p.type_ann {
                Some(t) => Some(copy_type(t)),
                None => None,
            };
            TypeElement::Property(PropertySignature { key, type_ann })
        },
        TypeElement::Other => TypeElement::Other,
    }
}

pub fn copy_interface(decl: &InterfaceDecl) -> (out: InterfaceDecl)
    ensures
        out@ == decl@,
{
    let mut body: Vec<TypeElement> = Vec::new();
    let mut i: usize = 0;
    while i < decl.body.len()
        invariant
            i <= decl.body.len(),
            body.len() == i,
            forall|j: int| 0 <= j < i ==> body@[j]@ == decl.body@[j]@,
        decreases decl.body.len() - i,
    {
        body.push(copy_element(&decl.body[i]));
        i += 1;
    }
    let out = InterfaceDecl { name: decl.name.clone(), body };
    assert(out@.body =~= decl@.body);
    out
}

pub fn copy_lit(lit: &Lit) -> (out: Lit)
    ensures
        out@ == lit@,
{
    match lit {
        Lit::Str(value) => Lit::Str(value.clone()),
        Lit::Num(text) => Lit::Num(text.clone()),
        Lit::Bool(b) => Lit::Bool(*b),
        Lit::Null => Lit::Null,
    }
}

pub fn copy_foreign(f: &Foreign) -> (out: Foreign)
    ensures
        out@ == f@,
    decreases f,
{
    Foreign { key: f.key, exprs: copy_exprs(&f.exprs), stmts: copy_stmts(&f.stmts) }
}

pub fn copy_pat(p: &Pat) -> (out: Pat)
    ensures
        out@ == p@,
    decreases p,
{
    match p {
        Pat::Ident(name) => Pat::Ident(name.clone()),
        Pat::Foreign(f) => Pat::Foreign(copy_foreign(f)),
    }
}

pub fn copy_pats(pats: &Vec<Pat>) -> (out: Vec<Pat>)
    ensures
        pats_view(out) == pats_view(*pats),
    decreases pats,
{
    let mut out: Vec<Pat> = Vec::new();
    let mut i: usize = 0;
    while i < pats.len()
        invariant
            i <= pats.len(),
            out.len() == i,
            forall|j: int| 0 <= j < i ==> out@[j]@ == pats@[j]@,
        decreases pats.len() - i,
    {
        out.push(copy_pat(&pats[i]));
        i += 1;
    }
    assert(pats_view(out) =~= pats_view(*pats));
    out
}

pub fn copy_opt_pat(p: &Option<Pat>) -> (out: Option<Pat>)
    ensures
        opt_pat_view(out) == opt_pat_view(*p),
    decreases p,
{
    match p {
        Some(p) => Some(copy_pat(p)),
        None => None,
    }
}

pub fn copy_name(name: &Option<String>) -> (out: Option<String>)
    ensures
        name_view(out) == name_view(*name),
{
    match name {
        Some(n) => Some(n.clone()),
        None => None,
    }
}

pub fn copy_expr(e: &Expr) -> (out: Expr)
    ensures
        out@ == e@,
    decreases e,
{
    match e {
        Expr::Ident(name) => Expr::Ident(name.clone()),
        Expr::Lit(lit) => Expr::Lit(copy_lit(lit)),
        Expr::This => Expr::This,
        Expr::Member(m) => Expr::Member(copy_member(m)),
        Expr::Call { callee, args } => Expr::Call {
            callee: Box::new(copy_expr(callee)),
            args: copy_exprs(args),
        },
        Expr::New { callee, args } => Expr::New {
            callee: Box::new(copy_expr(callee)),
            args: copy_exprs(args),
        },
        Expr::Assign { op, left, right } => Expr::Assign {
            op: *op,
            left: copy_target(left),
            right: Box::new(copy_expr(right)),
        },
        Expr::Bin { op, left, right } => Expr::Bin {
            op: *op,
            left: Box::new(copy_expr(left)),
            right: Box::new(copy_expr(right)),
        },
        Expr::Unary { op, arg } => Expr::Unary { op: *op, arg: Box::new(copy_expr(arg)) },
        Expr::Cond { test, cons, alt } => Expr::Cond {
            test: Box::new(copy_expr(test)),
            cons: Box::new(copy_expr(cons)),
            alt: Box::new(copy_expr(alt)),
        },
        Expr::Array(elems) => Expr::Array(copy_exprs(elems)),
        Expr::Paren(inner) => Expr::Paren(Box::new(copy_expr(inner))),
        Expr::Arrow { params, body, is_async } => Expr::Arrow {
            params: copy_pats(params),
            body: copy_arrow_body(body),
            is_async: *is_async,
        },
        Expr::Fn { name, function } => Expr::Fn {
            name: copy_name(name),
            function: copy_function(function),
        },
        Expr::Await(arg) => Expr::Await(Box::new(copy_expr(arg))),
        Expr::Foreign(f) => Expr::Foreign(copy_foreign(f)),
    }
}

pub fn copy_exprs(exprs: &Vec<Expr>) -> (out: Vec<Expr>)
    ensures
        exprs_view(out) == exprs_view(*exprs),
    decreases exprs,
{
    let mut out: Vec<Expr> = Vec::new();
    let mut i: usize = 0;
    while i < exprs.len()
        invariant
            i <= exprs.len(),
            out.len() == i,
            forall|j: int| 0 <= j < i ==> out@[j]@ == exprs@[j]@,
        decreases exprs.len() - i,
    {
        out.push(copy_expr(&exprs[i]));
        i += 1;
    }
    assert(exprs_view(out) =~= exprs_view(*exprs));
    out
}

pub fn copy_opt_expr(e: &Option<Expr>) -> (out: Option<Expr>)
    ensures
        opt_expr_view(out) == opt_expr_view(*e),
    decreases e,
{
    match e {
        Some(e) => Some(copy_expr(e)),
        None => None,
    }
}

pub fn copy_member(m: &MemberExpr) -> (out: MemberExpr)
    ensures
        out@ == m@,
    decreases m,
{
    MemberExpr { obj: Box::new(copy_expr(&m.obj)), prop: copy_prop(&m.prop) }
}

pub fn copy_prop(p: &MemberProp) -> (out: MemberProp)
    ensures
        out@ == p@,
    decreases p,
{
    match p {
        MemberProp::Ident(name) => MemberProp::Ident(name.clone()),
        MemberProp::Computed(key) => MemberProp::Computed(Box::new(copy_expr(key))),
        MemberProp::PrivateName(name) => MemberProp::PrivateName(name.clone()),
    }
}

pub fn copy_target(t: &AssignTarget) -> (out: AssignTarget)
    ensures
        out@ == t@,
    decreases t,
{
    match t {
        AssignTarget::Ident(name) => AssignTarget::Ident(name.clone()),
        AssignTarget::Member(m) => AssignTarget::Member(copy_member(m)),
        AssignTarget::Pattern(p) => AssignTarget::Pattern(copy_pat(p)),
    }
}

pub fn copy_function(f: &Function) -> (out: Function)
    ensures
        out@ == f@,
    decreases f,
{
    Function {
        params: copy_pats(&f.params),
        body: copy_stmts(&f.body),
        is_async: f.is_async,
        is_generator: f.is_generator,
    }
}

pub fn copy_arrow_body(b: &ArrowBody) -> (out: ArrowBody)
    ensures
        out@ == b@,
    decreases b,
{
    match b {
        ArrowBody::Block(stmts) => ArrowBody::Block(copy_stmts(stmts)),
        ArrowBody::Expr(e) => ArrowBody::Expr(Box::new(copy_expr(e))),
    }
}

pub fn copy_var_decl(d: &VarDecl) -> (out: VarDecl)
    ensures
        out@ == d@,
    decreases d,
{
    let mut decls: Vec<VarDeclarator> = Vec::new();
    let mut i: usize = 0;
    while i < d.decls.len()
        invariant
            i <= d.decls.len(),
            decls.len() == i,
            forall|j: int| 0 <= j < i ==> decls@[j]@ == d.decls@[j]@,
        decreases d.decls.len() - i,
    {
        let one = &d.decls[i];
        decls.push(VarDeclarator { name: copy_pat(&one.name), init: copy_opt_expr(&one.init) });
        i += 1;
    }
    let out = VarDecl { kind: d.kind, decls };
    assert(out@.decls =~= d@.decls);
    out
}

pub fn copy_for_init(init: &ForInit) -> (out: ForInit)
    ensures
        out@ == init@,
    decreases init,
{
    match init {
        ForInit::Var(d) => ForInit::Var(copy_var_decl(d)),
        ForInit::Expr(e) => ForInit::Expr(copy_expr(e)),
    }
}

pub fn copy_opt_for_init(init: &Option<ForInit>) -> (out: Option<ForInit>)
    ensures
        opt_for_init_view(out) == opt_for_init_view(*init),
    decreases init,
{
    match init {
        Some(init) => Some(copy_for_init(init)),
        None => None,
    }
}

pub fn copy_for_head(head: &ForHead) -> (out: ForHead)
    ensures
        out@ == head@,
    decreases head,
{
    match head {
        ForHead::Var(d) => ForHead::Var(copy_var_decl(d)),
        ForHead::Pat(p) => ForHead::Pat(copy_pat(p)),
    }
}

pub fn copy_catch(c: &CatchClause) -> (out: CatchClause)
    ensures
        out@ == c@,
    decreases c,
{
    CatchClause {
        param: copy_opt_pat(&c.param),
        body: copy_stmts(&c.body),
    }
}

pub fn copy_stmt(s: &Stmt) -> (out: Stmt)
    ensures
        out@ == s@,
    decreases s,
{
    match s {
        Stmt::Block(stmts) => Stmt::Block(copy_stmts(stmts)),
        Stmt::Expr(e) => Stmt::Expr(copy_expr(e)),
        Stmt::FnDecl { name, function } => Stmt::FnDecl {
            name: name.clone(),
            function: copy_function(function),
        },
        Stmt::Interface(decl) => Stmt::Interface(copy_interface(decl)),
        Stmt::Var(d) => Stmt::Var(copy_var_decl(d)),
        Stmt::For { init, test, update, body } => Stmt::For {
            init: copy_opt_for_init(init),
            test: copy_opt_expr(test),
            update: copy_opt_expr(update),
            body: Box::new(copy_stmt(body)),
        },
        Stmt::ForIn { left, right, body } => Stmt::ForIn {
            left: copy_for_head(left),
            right: copy_expr(right),
            body: Box::new(copy_stmt(body)),
        },
        Stmt::ForOf { is_await, left, right, body } => Stmt::ForOf {
            is_await: *is_await,
            left: copy_for_head(left),
            right: copy_expr(right),
            body: Box::new(copy_stmt(body)),
        },
        Stmt::While { test, body } => Stmt::While {
            test: copy_expr(test),
            body: Box::new(copy_stmt(body)),
        },
        Stmt::DoWhile { body, test } => Stmt::DoWhile {
            body: Box::new(copy_stmt(body)),
            test: copy_expr(test),
        },
        Stmt::If { test, cons, alt } => Stmt::If {
            test: copy_expr(test),
            cons: Box::new(copy_stmt(cons)),
            alt: copy_opt_stmt(alt),
        },
        Stmt::Return(arg) => Stmt::Return(copy_opt_expr(arg)),
        Stmt::Throw(arg) => Stmt::Throw(copy_expr(arg)),
        Stmt::Try { block, handler, finalizer } => Stmt::Try {
            block: copy_stmts(block),
            handler: copy_opt_catch(handler),
            finalizer: copy_opt_stmts(finalizer),
        },
        Stmt::Foreign(f) => Stmt::Foreign(copy_foreign(f)),
    }
}

pub fn copy_opt_stmt(s: &Option<Box<Stmt>>) -> (out: Option<Box<Stmt>>)
    ensures
        opt_stmt_view(out) == opt_stmt_view(*s),
    decreases s,
{
    match s {
        Some(s) => Some(Box::new(copy_stmt(s))),
        None => None,
    }
}

pub fn copy_opt_catch(c: &Option<CatchClause>) -> (out: Option<CatchClause>)
    ensures
        opt_catch_view(out) == opt_catch_view(*c),
    decreases c,
{
    match c {
        Some(c) => Some(copy_catch(c)),
        None => None,
    }
}

pub fn copy_opt_stmts(stmts: &Option<Vec<Stmt>>) -> (out: Option<Vec<Stmt>>)
    ensures
        opt_stmts_view(out) == opt_stmts_view(*stmts),
    decreases stmts,
{
    match stmts {
        Some(stmts) => Some(copy_stmts(stmts)),
        None => None,
    }
}

pub fn copy_stmts(stmts: &Vec<Stmt>) -> (out: Vec<Stmt>)
    ensures
        stmts_view(out) == stmts_view(*stmts),
    decreases stmts,
{
    let mut out: Vec<Stmt> = Vec::new();
    let mut i: usize = 0;
    while i < stmts.len()
        invariant
            i <= stmts.len(),
            out.len() == i,
            forall|j: int| 0 <= j < i ==> out@[j]@ == stmts@[j]@,
        decreases stmts.len() - i,
    {
        out.push(copy_stmt(&stmts[i]));
        i += 1;
    }
    assert(stmts_view(out) =~= stmts_view(*stmts));
    out
}

pub fn copy_module(m: &Module) -> (out: Module)
    ensures
        out@ == m@,
{
    Module { body: copy_stmts(&m.body) }
}

} // verus!
