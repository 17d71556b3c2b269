use scrap_rewrite::ast::{
    ArrowBody, AssignOp, AssignTarget, BinaryOp, Expr, Foreign, Function, Lit, MemberExpr,
    MemberProp, Pat, Stmt, UnaryOp,
};
use scrap_rewrite::copy::copy_expr;
use scrap_rewrite::visitor::{compound_operator, javascript, setter_for, JavaScript};

fn opaque(key: u64) -> Foreign {
    Foreign { key, exprs: vec![], stmts: vec![] }
}

fn id(name: &str) -> Expr {
    Expr::Ident(name.to_string())
}

fn num(text: &str) -> Expr {
    Expr::Lit(Lit::Num(text.to_string()))
}

fn text(value: &str) -> Expr {
    Expr::Lit(Lit::Str(value.to_string()))
}

fn dot(obj: Expr, name: &str) -> MemberExpr {
    MemberExpr { obj: Box::new(obj), prop: MemberProp::Ident(name.to_string()) }
}

fn call(callee: Expr, args: Vec<Expr>) -> Expr {
    Expr::Call { callee: Box::new(callee), args }
}

fn awaited(e: Expr) -> Expr {
    Expr::Await(Box::new(e))
}

fn assign(op: AssignOp, target: MemberExpr, right: Expr) -> Expr {
    Expr::Assign { op, left: AssignTarget::Member(target), right: Box::new(right) }
}

fn bin(op: BinaryOp, left: Expr, right: Expr) -> Expr {
    Expr::Bin { op, left: Box::new(left), right: Box::new(right) }
}

#[test]
fn call_gains_context_and_is_awaited() {
    let out = javascript().visit_expr(&call(id("foo"), vec![num("1"), num("2")]));
    assert_eq!(out, awaited(call(id("foo"), vec![id("self"), num("1"), num("2")])));
}

#[test]
fn call_without_arguments_gets_the_context_alone() {
    let out = javascript().visit_expr(&call(id("step"), vec![]));
    assert_eq!(out, awaited(call(id("step"), vec![id("self")])));
}

#[test]
fn string_and_number_are_awaited_without_context() {
    let engine = javascript();
    assert_eq!(
        engine.visit_expr(&call(id("String"), vec![id("x")])),
        awaited(call(id("String"), vec![id("x")]))
    );
    assert_eq!(
        engine.visit_expr(&call(id("Number"), vec![id("x")])),
        awaited(call(id("Number"), vec![id("x")]))
    );
}

#[test]
fn names_close_to_the_built_ins_get_the_context() {
    let engine = javascript();
    for name in ["string", "Numbers", "Strin", "Boolean"] {
        assert_eq!(
            engine.visit_expr(&call(id(name), vec![id("x")])),
            awaited(call(id(name), vec![id("self"), id("x")]))
        );
    }
}

#[test]
fn method_named_like_a_built_in_gets_the_context() {
    let callee = Expr::Member(dot(id("obj"), "String"));
    let out = javascript().visit_expr(&call(callee, vec![id("x")]));
    let callee = Expr::Member(dot(id("obj"), "String"));
    assert_eq!(out, awaited(call(callee, vec![id("self"), id("x")])));
}

#[test]
fn nested_calls_are_rewritten_children_first() {
    let inner = call(id("g"), vec![id("x")]);
    let out = javascript().visit_expr(&call(id("f"), vec![inner, num("3")]));
    let inner = awaited(call(id("g"), vec![id("self"), id("x")]));
    assert_eq!(out, awaited(call(id("f"), vec![id("self"), inner, num("3")])));
}

#[test]
fn built_in_keeps_its_rewritten_arguments() {
    let out = javascript().visit_expr(&call(id("String"), vec![call(id("g"), vec![])]));
    assert_eq!(
        out,
        awaited(call(id("String"), vec![awaited(call(id("g"), vec![id("self")]))]))
    );
}

#[test]
fn callee_that_is_a_call_is_rewritten_first() {
    let out = javascript().visit_expr(&call(call(id("make"), vec![]), vec![num("1")]));
    let callee = awaited(call(id("make"), vec![id("self")]));
    assert_eq!(out, awaited(call(callee, vec![id("self"), num("1")])));
}

#[test]
fn context_name_is_the_callers_choice() {
    let engine = JavaScript::new("runtime".to_string());
    let out = engine.visit_expr(&call(id("foo"), vec![num("1")]));
    assert_eq!(out, awaited(call(id("foo"), vec![id("runtime"), num("1")])));
}

#[test]
fn compound_write_to_variables_becomes_set_variable() {
    let target = dot(Expr::Member(dot(id("obj"), "variables")), "score");
    let out = javascript().visit_expr(&assign(AssignOp::AddAssign, target, num("5")));
    let read = Expr::Member(dot(Expr::Member(dot(id("obj"), "variables")), "score"));
    let expected = awaited(call(
        Expr::Member(dot(id("obj"), "setVariable")),
        vec![text("score"), bin(BinaryOp::Add, read, num("5"))],
    ));
    assert_eq!(out, expected);
}

#[test]
fn plain_write_to_variables_sets_the_right_side() {
    let target = dot(Expr::Member(dot(id("obj"), "variables")), "score");
    let out = javascript().visit_expr(&assign(AssignOp::Assign, target, num("5")));
    let expected = awaited(call(
        Expr::Member(dot(id("obj"), "setVariable")),
        vec![text("score"), num("5")],
    ));
    assert_eq!(out, expected);
}

#[test]
fn write_to_effects_becomes_set_effect() {
    let target = dot(Expr::Member(dot(Expr::This, "effects")), "ghost");
    let out = javascript().visit_expr(&assign(AssignOp::Assign, target, num("50")));
    let expected = awaited(call(
        Expr::Member(dot(Expr::This, "setEffect")),
        vec![text("ghost"), num("50")],
    ));
    assert_eq!(out, expected);
}

#[test]
fn store_written_with_string_keys_is_recognised() {
    let store = MemberExpr {
        obj: Box::new(id("obj")),
        prop: MemberProp::Computed(Box::new(text("variables"))),
    };
    let target = MemberExpr {
        obj: Box::new(Expr::Member(store)),
        prop: MemberProp::Computed(Box::new(text("high score"))),
    };
    let out = javascript().visit_expr(&assign(AssignOp::Assign, target, num("9")));
    let expected = awaited(call(
        Expr::Member(dot(id("obj"), "setVariable")),
        vec![text("high score"), num("9")],
    ));
    assert_eq!(out, expected);
}

#[test]
fn store_write_with_dynamic_key_stays_as_it_is() {
    let make = || {
        let target = MemberExpr {
            obj: Box::new(Expr::Member(dot(id("obj"), "variables"))),
            prop: MemberProp::Computed(Box::new(id("key"))),
        };
        assign(AssignOp::Assign, target, num("1"))
    };
    assert_eq!(javascript().visit_expr(&make()), make());
}

#[test]
fn store_write_with_private_name_stays_as_it_is() {
    let make = || {
        let target = MemberExpr {
            obj: Box::new(Expr::Member(dot(id("obj"), "variables"))),
            prop: MemberProp::PrivateName("score".to_string()),
        };
        assign(AssignOp::SubAssign, target, num("1"))
    };
    assert_eq!(javascript().visit_expr(&make()), make());
}

#[test]
fn recognised_properties_have_their_setters() {
    let cases = [
        ("x", "setX"),
        ("y", "setY"),
        ("draggable", "setDraggable"),
        ("volume", "setVolume"),
        ("direction", "pointInDirection"),
    ];
    for (prop, method) in cases {
        assert_eq!(setter_for(&prop.to_string()), Some(method.to_string()));
        let out = javascript().visit_expr(&assign(AssignOp::Assign, dot(id("sprite"), prop), num("7")));
        let expected = awaited(call(
            Expr::Member(dot(id("sprite"), method)),
            vec![text(prop), num("7")],
        ));
        assert_eq!(out, expected);
    }
}

#[test]
fn other_properties_have_no_setter() {
    for prop in ["z", "X", "size", "directions", "", "variables"] {
        assert_eq!(setter_for(&prop.to_string()), None);
    }
    let make = || assign(AssignOp::Assign, dot(id("sprite"), "size"), num("7"));
    assert_eq!(javascript().visit_expr(&make()), make());
}

#[test]
fn compound_write_to_a_recognised_property_reads_the_target() {
    let out = javascript().visit_expr(&assign(AssignOp::MulAssign, dot(id("sprite"), "x"), num("2")));
    let read = Expr::Member(dot(id("sprite"), "x"));
    let expected = awaited(call(
        Expr::Member(dot(id("sprite"), "setX")),
        vec![text("x"), bin(BinaryOp::Mul, read, num("2"))],
    ));
    assert_eq!(out, expected);
}

#[test]
fn every_compound_operator_has_its_binary_operator() {
    let table = [
        (AssignOp::AddAssign, BinaryOp::Add),
        (AssignOp::SubAssign, BinaryOp::Sub),
        (AssignOp::MulAssign, BinaryOp::Mul),
        (AssignOp::DivAssign, BinaryOp::Div),
        (AssignOp::ModAssign, BinaryOp::Mod),
        (AssignOp::AndAssign, BinaryOp::LogicalAnd),
        (AssignOp::OrAssign, BinaryOp::LogicalOr),
        (AssignOp::BitAndAssign, BinaryOp::BitAnd),
        (AssignOp::BitOrAssign, BinaryOp::BitOr),
        (AssignOp::BitXorAssign, BinaryOp::BitXor),
        (AssignOp::LShiftAssign, BinaryOp::LShift),
        (AssignOp::RShiftAssign, BinaryOp::RShift),
        (AssignOp::ZeroFillRShiftAssign, BinaryOp::ZeroFillRShift),
        (AssignOp::ExpAssign, BinaryOp::Exp),
        (AssignOp::NullishAssign, BinaryOp::NullishCoalescing),
    ];
    assert_eq!(compound_operator(AssignOp::Assign), None);
    for (op, binary) in table {
        assert_eq!(compound_operator(op), Some(binary));
        let target = dot(Expr::Member(dot(id("o"), "variables")), "v");
        let out = javascript().visit_expr(&assign(op, target, id("r")));
        let read = Expr::Member(dot(Expr::Member(dot(id("o"), "variables")), "v"));
        let expected = awaited(call(
            Expr::Member(dot(id("o"), "setVariable")),
            vec![text("v"), bin(binary, read, id("r"))],
        ));
        assert_eq!(out, expected);
    }
}

#[test]
fn write_through_a_call_awaits_the_call_in_receiver_and_read() {
    let target = dot(call(id("pick"), vec![]), "x");
    let out = javascript().visit_expr(&assign(AssignOp::AddAssign, target, num("1")));
    let picked = || awaited(call(id("pick"), vec![id("self")]));
    let read = Expr::Member(dot(picked(), "x"));
    let expected = awaited(call(
        Expr::Member(dot(picked(), "setX")),
        vec![text("x"), bin(BinaryOp::Add, read, num("1"))],
    ));
    assert_eq!(out, expected);
}

#[test]
fn right_side_of_a_rewritten_write_is_rewritten() {
    let target = dot(Expr::Member(dot(id("obj"), "variables")), "score");
    let out = javascript().visit_expr(&assign(AssignOp::Assign, target, call(id("roll"), vec![])));
    let expected = awaited(call(
        Expr::Member(dot(id("obj"), "setVariable")),
        vec![text("score"), awaited(call(id("roll"), vec![id("self")]))],
    ));
    assert_eq!(out, expected);
}

#[test]
fn assignment_to_a_name_or_pattern_keeps_its_shape() {
    let to_name = Expr::Assign {
        op: AssignOp::AddAssign,
        left: AssignTarget::Ident("x".to_string()),
        right: Box::new(call(id("f"), vec![])),
    };
    let expected = Expr::Assign {
        op: AssignOp::AddAssign,
        left: AssignTarget::Ident("x".to_string()),
        right: Box::new(awaited(call(id("f"), vec![id("self")]))),
    };
    assert_eq!(javascript().visit_expr(&to_name), expected);
    let make = || Expr::Assign {
        op: AssignOp::Assign,
        left: AssignTarget::Pattern(Pat::Foreign(opaque(4))),
        right: Box::new(id("pair")),
    };
    assert_eq!(javascript().visit_expr(&make()), make());
}

#[test]
fn arrow_and_function_expressions_become_async() {
    let arrow = Expr::Arrow {
        params: vec![Pat::Ident("a".to_string())],
        body: ArrowBody::Expr(Box::new(call(id("f"), vec![id("a")]))),
        is_async: false,
    };
    let expected = Expr::Arrow {
        params: vec![Pat::Ident("a".to_string())],
        body: ArrowBody::Expr(Box::new(awaited(call(id("f"), vec![id("self"), id("a")])))),
        is_async: true,
    };
    assert_eq!(javascript().visit_expr(&arrow), expected);
    let function = Expr::Fn {
        name: Some("named".to_string()),
        function: Function {
            params: vec![],
            body: vec![Stmt::Return(Some(num("1")))],
            is_async: false,
            is_generator: true,
        },
    };
    let expected = Expr::Fn {
        name: Some("named".to_string()),
        function: Function {
            params: vec![],
            body: vec![Stmt::Return(Some(num("1")))],
            is_async: true,
            is_generator: true,
        },
    };
    assert_eq!(javascript().visit_expr(&function), expected);
}

#[test]
fn arrow_with_block_body_has_its_statements_rewritten() {
    let arrow = Expr::Arrow {
        params: vec![],
        body: ArrowBody::Block(vec![Stmt::Expr(call(id("f"), vec![]))]),
        is_async: true,
    };
    let expected = Expr::Arrow {
        params: vec![],
        body: ArrowBody::Block(vec![Stmt::Expr(awaited(call(id("f"), vec![id("self")])))]),
        is_async: true,
    };
    assert_eq!(javascript().visit_expr(&arrow), expected);
}

#[test]
fn leaves_stay_as_they_are() {
    let engine = javascript();
    let leaves = [
        id("x"),
        num("1.5"),
        text("hello"),
        Expr::Lit(Lit::Bool(true)),
        Expr::Lit(Lit::Null),
        Expr::This,
        Expr::Foreign(opaque(42)),
    ];
    for leaf in leaves {
        assert_eq!(engine.visit_expr(&leaf), leaf);
    }
}

#[test]
fn calls_are_found_under_every_kind_of_expression() {
    let f = || call(id("f"), vec![]);
    let g = || awaited(call(id("f"), vec![id("self")]));
    let engine = javascript();
    assert_eq!(
        engine.visit_expr(&bin(BinaryOp::Lt, f(), num("1"))),
        bin(BinaryOp::Lt, g(), num("1"))
    );
    assert_eq!(
        engine.visit_expr(&Expr::Unary { op: UnaryOp::Bang, arg: Box::new(f()) }),
        Expr::Unary { op: UnaryOp::Bang, arg: Box::new(g()) }
    );
    assert_eq!(
        engine.visit_expr(&Expr::Cond {
            test: Box::new(f()),
            cons: Box::new(f()),
            alt: Box::new(id("no")),
        }),
        Expr::Cond { test: Box::new(g()), cons: Box::new(g()), alt: Box::new(id("no")) }
    );
    assert_eq!(engine.visit_expr(&Expr::Array(vec![f(), num("1")])), Expr::Array(vec![g(), num("1")]));
    assert_eq!(engine.visit_expr(&Expr::Paren(Box::new(f()))), Expr::Paren(Box::new(g())));
    assert_eq!(engine.visit_expr(&Expr::Await(Box::new(f()))), Expr::Await(Box::new(g())));
    assert_eq!(
        engine.visit_expr(&Expr::New { callee: Box::new(id("Thing")), args: vec![f()] }),
        Expr::New { callee: Box::new(id("Thing")), args: vec![g()] }
    );
    let keyed = MemberExpr { obj: Box::new(f()), prop: MemberProp::Computed(Box::new(f())) };
    let expected = MemberExpr { obj: Box::new(g()), prop: MemberProp::Computed(Box::new(g())) };
    assert_eq!(engine.visit_expr(&Expr::Member(keyed)), Expr::Member(expected));
}

#[test]
fn new_expression_is_not_a_suspension_point() {
    let make = || Expr::New { callee: Box::new(id("Thing")), args: vec![num("1")] };
    assert_eq!(javascript().visit_expr(&make()), make());
}

#[test]
fn rewriting_twice_wraps_twice() {
    let engine = javascript();
    let once = engine.visit_expr(&call(id("f"), vec![]));
    let twice = engine.visit_expr(&once);
    assert_eq!(
        twice,
        awaited(awaited(call(id("f"), vec![id("self"), id("self")])))
    );
}

#[test]
fn copy_of_an_expression_equals_the_expression() {
    let target = dot(Expr::Member(dot(id("obj"), "variables")), "score");
    let e = assign(
        AssignOp::ExpAssign,
        target,
        Expr::Arrow {
            params: vec![Pat::Foreign(opaque(1)), Pat::Ident("a".to_string())],
            body: ArrowBody::Block(vec![Stmt::Throw(call(id("f"), vec![text("t")]))]),
            is_async: false,
        },
    );
    assert_eq!(copy_expr(&e), e);
}

#[test]
fn what_stands_under_a_foreign_expression_is_rewritten() {
    let node = Expr::Foreign(Foreign {
        key: 7,
        exprs: vec![call(id("f"), vec![]), id("x")],
        stmts: vec![Stmt::Return(Some(call(id("g"), vec![num("1")])))],
    });
    let expected = Expr::Foreign(Foreign {
        key: 7,
        exprs: vec![awaited(call(id("f"), vec![id("self")])), id("x")],
        stmts: vec![Stmt::Return(Some(awaited(call(id("g"), vec![id("self"), num("1")]))))],
    });
    assert_eq!(javascript().visit_expr(&node), expected);
}

#[test]
fn default_values_in_parameters_are_rewritten() {
    let with = |default: Expr| Expr::Arrow {
        params: vec![
            Pat::Ident("a".to_string()),
            Pat::Foreign(Foreign { key: 0, exprs: vec![default], stmts: vec![] }),
        ],
        body: ArrowBody::Block(vec![]),
        is_async: true,
    };
    assert_eq!(
        javascript().visit_expr(&with(call(id("make"), vec![]))),
        with(awaited(call(id("make"), vec![id("self")])))
    );
}

#[test]
fn pattern_on_the_left_of_an_assignment_is_rewritten() {
    let with = |inner: Expr| Expr::Assign {
        op: AssignOp::Assign,
        left: AssignTarget::Pattern(Pat::Foreign(Foreign {
            key: 3,
            exprs: vec![inner],
            stmts: vec![],
        })),
        right: Box::new(id("pair")),
    };
    assert_eq!(
        javascript().visit_expr(&with(call(id("slot"), vec![]))),
        with(awaited(call(id("slot"), vec![id("self")])))
    );
}

#[test]
fn default_engine_names_the_context_self() {
    assert_eq!(JavaScript::default().context, "self");
    assert_eq!(javascript().context, "self");
    assert_eq!(JavaScript::default().context_ref(), id("self"));
}
