use scrap_rewrite::ast::{Expr, Foreign, Module, Stmt};
use scrap_rewrite::types::{
    InterfaceDecl, PropertyKey, PropertySignature, TsEntityName, TsKeyword, TsType, TypeElement,
};
use scrap_rewrite::variables::{
    collect_variables, declared_variable, get_variables, interface_variables_of,
};

fn opaque(key: u64) -> Foreign {
    Foreign { key, exprs: vec![], stmts: vec![] }
}

fn var(name: &str, tags: &[&str]) -> (String, Vec<String>) {
    (name.to_string(), tags.iter().map(|t| t.to_string()).collect())
}

fn prop(name: &str, t: Option<TsType>) -> TypeElement {
    TypeElement::Property(PropertySignature {
        key: PropertyKey::Ident(name.to_string()),
        type_ann: t,
    })
}

fn keyword(k: TsKeyword) -> Option<TsType> {
    Some(TsType::Keyword(k))
}

fn interface(name: &str, body: Vec<TypeElement>) -> InterfaceDecl {
    InterfaceDecl { name: name.to_string(), body }
}

#[test]
fn variables_one_entry_per_property_in_source_order() {
    let program = Module {
        body: vec![Stmt::Interface(interface(
            "S",
            vec![prop("score", keyword(TsKeyword::Number)), prop("name", keyword(TsKeyword::String))],
        ))],
    };
    assert_eq!(
        get_variables(&program),
        vec![var("score", &["number"]), var("name", &["string"])]
    );
}

#[test]
fn variables_every_tag_list_is_non_empty() {
    let decl = interface(
        "S",
        vec![
            prop("a", None),
            prop("b", Some(TsType::Other)),
            prop("c", Some(TsType::Union(vec![
                TsType::Keyword(TsKeyword::Number),
                TsType::Keyword(TsKeyword::Null),
            ]))),
            prop("d", Some(TsType::Array(Box::new(TsType::Other)))),
        ],
    );
    let vars = interface_variables_of(&decl);
    assert_eq!(vars.len(), 4);
    for (_, tags) in &vars {
        assert!(!tags.is_empty());
    }
}

#[test]
fn property_without_annotation_is_any() {
    let decl = interface("S", vec![prop("loose", None)]);
    assert_eq!(interface_variables_of(&decl), vec![var("loose", &["any"])]);
}

#[test]
fn string_literal_key_gives_its_value() {
    let member = TypeElement::Property(PropertySignature {
        key: PropertyKey::Str("high score".to_string()),
        type_ann: keyword(TsKeyword::Number),
    });
    assert_eq!(declared_variable(&member), Some(var("high score", &["number"])));
}

#[test]
fn other_keys_and_other_members_are_skipped() {
    let computed = TypeElement::Property(PropertySignature {
        key: PropertyKey::Other,
        type_ann: keyword(TsKeyword::Number),
    });
    assert_eq!(declared_variable(&computed), None);
    assert_eq!(declared_variable(&TypeElement::Other), None);
    let decl = interface(
        "S",
        vec![
            prop("first", keyword(TsKeyword::Boolean)),
            computed,
            TypeElement::Other,
            prop("last", keyword(TsKeyword::Void)),
        ],
    );
    assert_eq!(
        interface_variables_of(&decl),
        vec![var("first", &["boolean"]), var("last", &["void"])]
    );
}

#[test]
fn union_annotation_keeps_every_tag() {
    let t = TsType::Union(vec![
        TsType::Keyword(TsKeyword::Number),
        TsType::Ref(TsEntityName::Ident("Color".to_string())),
        TsType::Keyword(TsKeyword::Number),
    ]);
    let decl = interface("S", vec![prop("tint", Some(t))]);
    assert_eq!(
        interface_variables_of(&decl),
        vec![var("tint", &["number", "Color", "number"])]
    );
}

#[test]
fn interfaces_are_read_in_document_order() {
    let program = Module {
        body: vec![
            Stmt::Interface(interface("A", vec![prop("a", keyword(TsKeyword::Number))])),
            Stmt::Expr(Expr::Ident("between".to_string())),
            Stmt::Interface(interface("Empty", vec![])),
            Stmt::Interface(interface(
                "B",
                vec![prop("b", keyword(TsKeyword::String)), prop("c", None)],
            )),
        ],
    };
    assert_eq!(
        get_variables(&program),
        vec![var("a", &["number"]), var("b", &["string"]), var("c", &["any"])]
    );
}

#[test]
fn only_top_level_interfaces_are_read() {
    let nested = Stmt::Block(vec![Stmt::Interface(interface(
        "Inner",
        vec![prop("hidden", keyword(TsKeyword::Number))],
    ))]);
    let program = Module { body: vec![nested, Stmt::Foreign(opaque(3))] };
    assert_eq!(get_variables(&program), vec![]);
}

#[test]
fn program_without_items_declares_nothing() {
    assert_eq!(get_variables(&Module { body: vec![] }), vec![]);
}

#[test]
fn collect_variables_appends_to_what_is_there() {
    let decl = interface("S", vec![prop("b", keyword(TsKeyword::String))]);
    let mut vars = vec![var("a", &["number"])];
    collect_variables(&decl, &mut vars);
    assert_eq!(vars, vec![var("a", &["number"]), var("b", &["string"])]);
}
