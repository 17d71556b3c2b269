use scrap_rewrite::copy::copy_type;
use scrap_rewrite::type_tags::get_type;
use scrap_rewrite::types::{TsEntityName, TsKeyword, TsType};

fn tags(list: &[&str]) -> Vec<String> {
    list.iter().map(|t| t.to_string()).collect()
}

#[test]
fn keyword_number_boolean_string_void_have_their_own_tag() {
    assert_eq!(get_type(&TsType::Keyword(TsKeyword::Number)), tags(&["number"]));
    assert_eq!(get_type(&TsType::Keyword(TsKeyword::Boolean)), tags(&["boolean"]));
    assert_eq!(get_type(&TsType::Keyword(TsKeyword::String)), tags(&["string"]));
    assert_eq!(get_type(&TsType::Keyword(TsKeyword::Void)), tags(&["void"]));
}

#[test]
fn every_other_keyword_is_any() {
    let others = [
        TsKeyword::Any,
        TsKeyword::Unknown,
        TsKeyword::Object,
        TsKeyword::BigInt,
        TsKeyword::Symbol,
        TsKeyword::Undefined,
        TsKeyword::Null,
        TsKeyword::Never,
        TsKeyword::Intrinsic,
    ];
    for k in others {
        assert_eq!(get_type(&TsType::Keyword(k)), tags(&["any"]));
    }
}

#[test]
fn array_is_array_whatever_its_elements() {
    let of_numbers = TsType::Array(Box::new(TsType::Keyword(TsKeyword::Number)));
    let of_unions = TsType::Array(Box::new(TsType::Union(vec![
        TsType::Keyword(TsKeyword::String),
        TsType::Keyword(TsKeyword::Boolean),
    ])));
    assert_eq!(get_type(&of_numbers), tags(&["array"]));
    assert_eq!(get_type(&of_unions), tags(&["array"]));
}

#[test]
fn parentheses_give_the_tags_of_the_inner_type() {
    let t = TsType::Paren(Box::new(TsType::Paren(Box::new(TsType::Keyword(TsKeyword::String)))));
    assert_eq!(get_type(&t), tags(&["string"]));
}

#[test]
fn union_keeps_order_and_duplicates() {
    let t = TsType::Union(vec![
        TsType::Keyword(TsKeyword::Number),
        TsType::Keyword(TsKeyword::String),
        TsType::Keyword(TsKeyword::Number),
    ]);
    assert_eq!(get_type(&t), tags(&["number", "string", "number"]));
}

#[test]
fn nested_union_is_flattened_left_to_right() {
    let inner = TsType::Paren(Box::new(TsType::Union(vec![
        TsType::Keyword(TsKeyword::Boolean),
        TsType::Array(Box::new(TsType::Other)),
    ])));
    let t = TsType::Union(vec![
        TsType::Keyword(TsKeyword::Void),
        inner,
        TsType::Ref(TsEntityName::Ident("Color".to_string())),
    ]);
    assert_eq!(get_type(&t), tags(&["void", "boolean", "array", "Color"]));
}

#[test]
fn named_reference_gives_its_own_name() {
    let t = TsType::Ref(TsEntityName::Ident("Direction".to_string()));
    assert_eq!(get_type(&t), tags(&["Direction"]));
}

#[test]
fn qualified_reference_and_other_shapes_are_any() {
    assert_eq!(get_type(&TsType::Ref(TsEntityName::Qualified)), tags(&["any"]));
    assert_eq!(get_type(&TsType::Other), tags(&["any"]));
}

#[test]
fn union_without_members_has_no_tag() {
    assert_eq!(get_type(&TsType::Union(vec![])), tags(&[]));
}

#[test]
fn copy_of_a_type_equals_the_type() {
    let t = TsType::Union(vec![
        TsType::Paren(Box::new(TsType::Keyword(TsKeyword::Number))),
        TsType::Ref(TsEntityName::Ident("Color".to_string())),
        TsType::Array(Box::new(TsType::Other)),
    ]);
    assert_eq!(copy_type(&t), t);
}
