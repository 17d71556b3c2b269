//! Laws of the rewrite and of the variable extractor, proved from their
//! definitions.
use vstd::prelude::*;
use vstd::seq_lib::lemma_flatten_concat;
use crate::ast::AssignOp;
use crate::model::{
    CatchClauseView, ExprView, LitView, MemberExprView, MemberPropView, ModuleView, PatView,
    StmtView,
};
use crate::rules::{
    annotation_tags, assignment, binary_of, body_stmts, declare_stmt, declared_by,
    interface_variables, interrupt_guard, is_plain_builtin, item_declaring, item_variables,
    key_name, member_assignment, method_call, module_variables, rewrite_catch, rewrite_expr,
    rewrite_exprs, rewrite_function, rewrite_module, rewrite_stmt, rewrite_stmts, rewrite_target,
    set_call, static_member, str_lit, synthetic_error_name, value_to_set, yield_stmt, Variable,
};
use crate::type_tags::{has_tag, lemma_tags_nonempty};
use crate::types::{InterfaceDeclView, PropertySignatureView, TypeElementView};

verus! {

// ---------------------------------------------------------------------------
// Operators
// ---------------------------------------------------------------------------

/// Every compound assignment operator applies a binary operator, and no two
/// of them apply the same one.
pub proof fn lemma_compound_operators(a: AssignOp, b: AssignOp)
    ensures
        a != AssignOp::Assign ==> binary_of(a) is Some,
        binary_of(a) is Some && binary_of(a) == binary_of(b) ==> a == b,
{
}

// ---------------------------------------------------------------------------
// Declared variables
// ---------------------------------------------------------------------------

/// The property signature that a member of an interface is, if it is one.
pub open spec fn as_property() -> spec_fn(TypeElementView) -> Option<PropertySignatureView> {
    |member: TypeElementView|
        match member {
            TypeElementView::Property(p) => Some(p),
            TypeElementView::Other => None,
        }
}

/// The property signatures of an interface body, in source order.
pub open spec fn properties(members: Seq<TypeElementView>) -> Seq<PropertySignatureView> {
    members.filter_map(as_property())
}

/// The variable that a property signature with a usable key declares.
pub open spec fn variable_of() -> spec_fn(PropertySignatureView) -> Variable {
    |p: PropertySignatureView| (key_name(p.key)->Some_0, annotation_tags(p.type_ann))
}

/// An interface whose property signatures are all keyed by an identifier or
/// a string literal declares exactly one variable for each of them, in
/// source order.
pub proof fn lemma_one_variable_per_property(members: Seq<TypeElementView>)
    requires
        forall|i: int|
            0 <= i < members.len() ==> (#[trigger] members[i] matches TypeElementView::Property(p)
                ==> key_name(p.key) is Some),
    ensures
        interface_variables(members) == properties(members).map_values(variable_of()),
    decreases members.len(),
{
    if members.len() == 0 {
        assert(interface_variables(members) =~= properties(members).map_values(variable_of()));
    } else {
        let rest = members.drop_last();
        assert forall|i: int| 0 <= i < rest.len() implies (
        #[trigger] rest[i] matches TypeElementView::Property(p) ==> key_name(p.key) is Some) by {
            assert(rest[i] == members[i]);
        }
        lemma_one_variable_per_property(rest);
        let last = members[members.len() - 1];
        assert(last == members.last());
        assert(interface_variables(members) =~= properties(members).map_values(variable_of()));
    }
}

/// Every variable that an interface declares has at least one tag, where
/// each annotation in it has one.
pub proof fn lemma_variables_have_tags(members: Seq<TypeElementView>)
    requires
        forall|i: int|
            0 <= i < members.len() ==> (#[trigger] members[i] matches TypeElementView::Property(p)
                ==> (p.type_ann matches Some(t) ==> has_tag(t))),
    ensures
        forall|j: int|
            0 <= j < interface_variables(members).len() ==> (
            #[trigger] interface_variables(members)[j]).1.len() > 0,
    decreases members.len(),
{
    if members.len() > 0 {
        let rest = members.drop_last();
        assert forall|i: int| 0 <= i < rest.len() implies (
        #[trigger] rest[i] matches TypeElementView::Property(p) ==> (p.type_ann matches Some(t)
            ==> has_tag(t))) by {
            assert(rest[i] == members[i]);
        }
        lemma_variables_have_tags(rest);
        let last = members[members.len() - 1];
        assert(last == members.last());
        let vars = interface_variables(members);
        let before = interface_variables(rest);
        assert forall|j: int| 0 <= j < vars.len() implies (#[trigger] vars[j]).1.len() > 0 by {
            if j < before.len() {
                assert(vars[j] == before[j]);
            } else {
                assert(vars[j] == declared_by(last)->Some_0);
                if let TypeElementView::Property(p) = last {
                    if let Some(t) = p.type_ann {
                        lemma_tags_nonempty(t);
                    }
                }
            }
        }
    }
}

/// The variables of a program come in document order: those of one stretch
/// of items, then those of the next.
pub proof fn lemma_variables_in_document_order(first: Seq<StmtView>, then: Seq<StmtView>)
    ensures
        module_variables(first + then) == module_variables(first) + module_variables(then),
{
    assert((first + then).map_values(item_declaring()) =~= first.map_values(item_declaring())
        + then.map_values(item_declaring()));
    lemma_flatten_concat(
        first.map_values(item_declaring()),
        then.map_values(item_declaring()),
    );
}

/// The variables of a program that is one interface declaration are the
/// variables of that interface.
pub proof fn lemma_variables_of_one_interface(decl: InterfaceDeclView)
    ensures
        module_variables(seq![StmtView::Interface(decl)]) == interface_variables(decl.body),
{
    let each = seq![StmtView::Interface(decl)].map_values(item_declaring());
    assert(each =~= seq![interface_variables(decl.body)]);
    each.lemma_flatten_one_element();
}

// ---------------------------------------------------------------------------
// Rewritten interfaces agree with the declared variables
// ---------------------------------------------------------------------------

/// The text of a string literal.
pub open spec fn literal_text(e: ExprView) -> Option<Seq<char>> {
    match e {
        ExprView::Lit(LitView::Str(value)) => Some(value),
        _ => None,
    }
}

/// The variable that a declaration call declares: its first argument is the
/// name and the others are the tags.
pub open spec fn read_declaration(s: StmtView, ctx: Seq<char>) -> Option<Variable> {
    match s {
        StmtView::Expr(ExprView::Call { callee, args }) => if *callee == static_member(
            ExprView::Ident(ctx),
            "declareVariable"@,
        ) && args.len() >= 1 && (forall|i: int|
            0 <= i < args.len() ==> literal_text(#[trigger] args[i]) is Some) {
            Some(
                (
                    literal_text(args[0])->Some_0,
                    Seq::new((args.len() - 1) as nat, |i: int| literal_text(args[i + 1])->Some_0),
                ),
            )
        } else {
            None
        },
        _ => None,
    }
}

/// A declaration call reads back as the variable it was written for.
pub proof fn lemma_declaration_reads_back(ctx: Seq<char>, v: Variable)
    ensures
        read_declaration(declare_stmt(ctx, v), ctx) == Some(v),
{
    let args = seq![str_lit(v.0)] + v.1.map_values(|tag: Seq<char>| str_lit(tag));
    assert(declare_stmt(ctx, v) == StmtView::Expr(
        method_call(ExprView::Ident(ctx), "declareVariable"@, args),
    ));
    assert forall|i: int| 0 <= i < args.len() implies literal_text(#[trigger] args[i]) is Some by {
        if i > 0 {
            assert(args[i] == str_lit(v.1[i - 1]));
        }
    }
    let tags = Seq::new((args.len() - 1) as nat, |i: int| literal_text(args[i + 1])->Some_0);
    assert(tags =~= v.1) by {
        assert forall|i: int| 0 <= i < v.1.len() implies tags[i] == v.1[i] by {
            assert(args[i + 1] == str_lit(v.1[i]));
        }
    }
}

/// Rewriting an interface declaration and extracting its variables agree: the
/// block that takes the place of the declaration holds one declaration call
/// for each declared variable, with the same name and the same tags, in the
/// same order.
pub proof fn lemma_rewrite_agrees_with_variables(decl: InterfaceDeclView, ctx: Seq<char>)
    ensures
        rewrite_stmt(StmtView::Interface(decl), ctx) matches StmtView::Block(stmts)
            && stmts.len() == interface_variables(decl.body).len() && forall|i: int|
            0 <= i < stmts.len() ==> read_declaration(#[trigger] stmts[i], ctx) == Some(
                interface_variables(decl.body)[i],
            ),
{
    let vars = interface_variables(decl.body);
    let stmts = vars.map_values(|v: Variable| declare_stmt(ctx, v));
    assert(rewrite_stmt(StmtView::Interface(decl), ctx) == StmtView::Block(stmts));
    assert forall|i: int| 0 <= i < stmts.len() implies read_declaration(
        #[trigger] stmts[i],
        ctx,
    ) == Some(vars[i]) by {
        lemma_declaration_reads_back(ctx, vars[i]);
    }
}

/// The same agreement for a program: where its item `k` is an interface
/// declaration, item `k` of the rewritten program declares the variables of
/// that item.
pub proof fn lemma_transform_agrees_with_variables(program: ModuleView, ctx: Seq<char>, k: int)
    requires
        0 <= k < program.body.len(),
        program.body[k] is Interface,
    ensures
        rewrite_module(program, ctx).body[k] matches StmtView::Block(stmts) && stmts.len()
            == item_variables(program.body[k]).len() && forall|i: int|
            0 <= i < stmts.len() ==> read_declaration(#[trigger] stmts[i], ctx) == Some(
                item_variables(program.body[k])[i],
            ),
{
    lemma_rewrite_agrees_with_variables(program.body[k]->Interface_0, ctx);
}

// ---------------------------------------------------------------------------
// The traversal
// ---------------------------------------------------------------------------

/// The rewrite keeps siblings in place: the rewritten list has the length of
/// the list, and each of its statements is the rewrite of the one that stood
/// there.
pub proof fn lemma_rewrite_keeps_order(stmts: Seq<StmtView>, ctx: Seq<char>)
    ensures
        rewrite_stmts(stmts, ctx).len() == stmts.len(),
        forall|i: int|
            0 <= i < stmts.len() ==> #[trigger] rewrite_stmts(stmts, ctx)[i] == rewrite_stmt(
                stmts[i],
                ctx,
            ),
{
}

/// An identifier stays as it is, and nothing else becomes one.
pub proof fn lemma_identifiers_are_fixed(e: ExprView, ctx: Seq<char>)
    ensures
        e is Ident ==> rewrite_expr(e, ctx) == e,
        rewrite_expr(e, ctx) is Ident ==> e is Ident,
{
    if let ExprView::Assign { op, left, right } = e {
        let l = rewrite_target(left, ctx);
        let r = rewrite_expr(*right, ctx);
        assert(rewrite_expr(e, ctx) == assignment(op, l, r));
    }
}

/// Every call becomes a suspension point: it is awaited, its callee and its
/// arguments are rewritten in place, and it gets the context before them
/// unless its callee is a plain built-in.
pub proof fn lemma_calls_are_suspended(callee: ExprView, args: Seq<ExprView>, ctx: Seq<char>)
    ensures
        rewrite_expr(ExprView::Call { callee: Box::new(callee), args }, ctx) == ExprView::Await(
            Box::new(
                ExprView::Call {
                    callee: Box::new(rewrite_expr(callee, ctx)),
                    args: if is_plain_builtin(callee) {
                        rewrite_exprs(args, ctx)
                    } else {
                        seq![ExprView::Ident(ctx)] + rewrite_exprs(args, ctx)
                    },
                },
            ),
        ),
{
    lemma_identifiers_are_fixed(callee, ctx);
}

/// Every function declaration, function expression and arrow function
/// becomes suspension-capable.
pub proof fn lemma_functions_are_suspendable(e: ExprView, s: StmtView, ctx: Seq<char>)
    ensures
        e is Fn ==> rewrite_expr(e, ctx) is Fn && rewrite_expr(e, ctx)->Fn_function.is_async,
        e is Arrow ==> rewrite_expr(e, ctx) is Arrow && rewrite_expr(e, ctx)->Arrow_is_async,
        s is FnDecl ==> rewrite_stmt(s, ctx) is FnDecl && rewrite_stmt(
            s,
            ctx,
        )->FnDecl_function.is_async,
{
    if let ExprView::Fn { name, function } = e {
        assert(rewrite_expr(e, ctx)->Fn_function == rewrite_function(function, ctx));
    }
    if let StmtView::FnDecl { name, function } = s {
        assert(rewrite_stmt(s, ctx)->FnDecl_function == rewrite_function(function, ctx));
    }
}

/// The body of a loop.
pub open spec fn loop_body(s: StmtView) -> Option<StmtView> {
    match s {
        StmtView::For { body, .. } => Some(*body),
        StmtView::ForIn { body, .. } => Some(*body),
        StmtView::ForOf { body, .. } => Some(*body),
        StmtView::While { body, .. } => Some(*body),
        StmtView::DoWhile { body, .. } => Some(*body),
        _ => None,
    }
}

/// Every loop yields once, before its own statements: the body of the
/// rewritten loop is a block that starts with the yield and goes on with the
/// statements of the rewritten body.
pub proof fn lemma_loops_yield_first(s: StmtView, ctx: Seq<char>)
    requires
        loop_body(s) is Some,
    ensures
        loop_body(rewrite_stmt(s, ctx)) == Some(
            StmtView::Block(
                seq![yield_stmt(ctx)] + body_stmts(rewrite_stmt(loop_body(s)->Some_0, ctx)),
            ),
        ),
{
}

/// A write to `owner.variables.name` or to `owner.effects.name` becomes an
/// awaited call on the owner, with the name and the value to set.
pub proof fn lemma_store_writes_become_calls(
    op: AssignOp,
    owner: ExprView,
    store: Seq<char>,
    name: Seq<char>,
    right: ExprView,
)
    requires
        store == "variables"@ || store == "effects"@,
    ensures
        ({
            let target = MemberExprView {
                obj: Box::new(static_member(owner, store)),
                prop: MemberPropView::Ident(name),
            };
            member_assignment(op, target, right) == set_call(
                owner,
                if store == "variables"@ {
                    "setVariable"@
                } else {
                    "setEffect"@
                },
                name,
                value_to_set(op, target, right),
            )
        }),
{
    reveal_strlit("variables");
    reveal_strlit("effects");
    assert("variables"@.len() != "effects"@.len());
}

/// A catch clause that binds a simple name, or nothing, starts with the
/// guard on the bound name, and goes on with its rewritten statements; a
/// clause that binds any other pattern only has its statements rewritten.
pub proof fn lemma_catch_clauses_are_guarded(c: CatchClauseView, ctx: Seq<char>)
    ensures
        c.param matches Some(PatView::Ident(name)) ==> rewrite_catch(c, ctx) == (CatchClauseView {
            param: c.param,
            body: seq![interrupt_guard(name)] + rewrite_stmts(c.body, ctx),
        }),
        c.param is None ==> rewrite_catch(c, ctx) == (CatchClauseView {
            param: Some(PatView::Ident(synthetic_error_name())),
            body: seq![interrupt_guard(synthetic_error_name())] + rewrite_stmts(c.body, ctx),
        }),
        c.param matches Some(PatView::Foreign(_)) ==> rewrite_catch(c, ctx) == (CatchClauseView {
            param: c.param,
            body: rewrite_stmts(c.body, ctx),
        }),
{
}

} // verus!
