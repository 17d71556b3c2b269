//! The variable extractor: the variables that the top-level interface
//! declarations of a program declare, read without rewriting anything.
use vstd::prelude::*;
use vstd::string::StringExecFns;
use crate::ast::{Module, Stmt};
use crate::model::stmt_view;
use crate::rules::{
    declared_by, declaring, interface_variables, item_declaring, item_variables, module_variables,
    Variable,
};
use crate::type_tags::{get_type, texts};
use crate::types::{InterfaceDecl, PropertyKey, TypeElement};

verus! {

/// The views of a list of declared variables, in order.
pub open spec fn variables_view(v: Seq<(String, Vec<String>)>) -> Seq<Variable> {
    v.map_values(|p: (String, Vec<String>)| (p.0@, texts(p.1@)))
}

/// The variable that one member of an interface declares, if any.
pub fn declared_variable(member: &TypeElement) -> (v: Option<(String, Vec<String>)>)
    ensures
        match v {
            Some(p) => declared_by(member@) == Some((p.0@, texts(p.1@))),
            None => declared_by(member@) is None,
        },
{
    match member {
        TypeElement::Property(p) => {
            let name = match &p.key {
                PropertyKey::Ident(name) => name.clone(),
                PropertyKey::Str(value) => value.clone(),
                PropertyKey::Other => {
                    return None;
                },
            };
            let tags = match &p.type_ann {
                Some(t) => get_type(t),
                None => {
                    let mut tags: Vec<String> = Vec::new();
                    tags.push(String::from_str("any"));
                    assert(texts(tags@) =~= seq!["any"@]);
                    tags
                },
            };
            Some((name, tags))
        },
        TypeElement::Other => None,
    }
}

/// Appends the variables that an interface declares, in source order.
pub fn collect_variables(decl: &InterfaceDecl, vars: &mut Vec<(String, Vec<String>)>)
    ensures
        variables_view(final(vars)@) == variables_view(old(vars)@) + interface_variables(
            decl@.body,
        ),
{
    let ghost before = variables_view(vars@);
    let ghost members = decl@.body;
    let mut i: usize = 0;
    assert(variables_view(vars@) =~= before + interface_variables(members.take(0)));
    while i < decl.body.len()
        invariant
            i <= decl.body.len(),
            members == decl@.body,
            members.len() == decl.body.len(),
            variables_view(vars@) == before + interface_variables(members.take(i as int)),
        decreases decl.body.len() - i,
    {
        proof {
            members.lemma_filter_map_take_succ(declaring(), i as int);
        }
        assert(members[i as int] == decl.body@[i as int]@);
        let ghost seen = vars@;
        match declared_variable(&decl.body[i]) {
            Some(v) => {
                vars.push(v);
                assert(variables_view(vars@) =~= variables_view(seen) + seq![
                    (v.0@, texts(v.1@)),
                ]);
            },
            None => {},
        }
        i += 1;
        assert(variables_view(vars@) =~= before + interface_variables(members.take(i as int)));
    }
    assert(members.take(i as int) =~= members);
}

/// The variables that one interface declares, in source order.
pub fn interface_variables_of(decl: &InterfaceDecl) -> (vars: Vec<(String, Vec<String>)>)
    ensures
        variables_view(vars@) == interface_variables(decl@.body),
{
    let mut vars: Vec<(String, Vec<String>)> = Vec::new();
    assert(variables_view(vars@) =~= Seq::empty());
    collect_variables(decl, &mut vars);
    assert(variables_view(vars@) =~= interface_variables(decl@.body));
    vars
}

/// The variables that the top-level interface declarations of `program`
/// declare: one entry for each property signature whose key is an identifier
/// or a string literal, in document order.
pub fn get_variables(program: &Module) -> (vars: Vec<(String, Vec<String>)>)
    ensures
        variables_view(vars@) == module_variables(program@.body),
{
    let ghost items = program@.body;
    let mut vars: Vec<(String, Vec<String>)> = Vec::new();
    let mut i: usize = 0;
    assert(variables_view(vars@) =~= module_variables(items.take(0))) by {
        assert(items.take(0).map_values(item_declaring()) =~= Seq::empty());
    }
    while i < program.body.len()
        invariant
            i <= program.body.len(),
            items == program@.body,
            items.len() == program.body.len(),
            variables_view(vars@) == module_variables(items.take(i as int)),
        decreases program.body.len() - i,
    {
        let ghost done = items.take(i as int).map_values(item_declaring());
        assert(items.take(i + 1).map_values(item_declaring()) =~= done.push(
            item_variables(items[i as int]),
        ));
        proof {
            done.lemma_flatten_push(item_variables(items[i as int]));
        }
        assert(items[i as int] == stmt_view(program.body@[i as int]));
        match &program.body[i] {
            Stmt::Interface(decl) => {
                collect_variables(decl, &mut vars);
            },
            _ => {
                assert(variables_view(vars@) + Seq::empty() =~= variables_view(vars@));
            },
        }
        i += 1;
    }
    assert(items.take(i as int) =~= items);
    vars
}

} // verus!
