//! The member key reader: the static name of the property that a member
//! access reads, whether written as `obj.foo` or as `obj["foo"]`.
use vstd::prelude::*;
use vstd::string::StringExecFns;
use crate::ast::{Expr, Lit, MemberExpr, MemberProp};
use crate::model::{expr_view, name_view, ExprView, LitView, MemberPropView};

verus! {

/// The static name of a property: the identifier of a plain property, the
/// value of a computed string-literal key, and nothing for a private name or
/// for any other computed key.
pub open spec fn static_key(prop: MemberPropView) -> Option<Seq<char>> {
    match prop {
        MemberPropView::Ident(name) => Some(name),
        MemberPropView::Computed(key) => match *key {
            ExprView::Lit(LitView::Str(value)) => Some(value),
            _ => None,
        },
        MemberPropView::PrivateName(_) => None,
    }
}

/// Whether a string holds exactly the given text.
pub fn text_is(s: &String, text: &str) -> (same: bool)
    ensures
        same == (s@ == text@),
{
    let other = String::from_str(text);
    *s == other
}

/// The string that holds the static name of a property, if it has one.
pub fn key_text(prop: &MemberProp) -> (text: Option<&String>)
    ensures
        match text {
            Some(s) => static_key(prop@) == Some(s@),
            None => static_key(prop@) is None,
        },
{
    match prop {
        MemberProp::Ident(id) => Some(id),
        MemberProp::Computed(key) => {
            assert(prop@ == MemberPropView::Computed(Box::new(expr_view(**key))));
            match &**key {
                Expr::Lit(Lit::Str(value)) => Some(value),
                _ => None,
            }
        },
        MemberProp::PrivateName(_) => None,
    }
}

/// Whether the property that `node` reads has the static name `name`.
pub fn is_property(node: &MemberExpr, name: &str) -> (found: bool)
    ensures
        found == (static_key(node@.prop) == Some(name@)),
{
    assert(node@.prop == node.prop@);
    match key_text(&node.prop) {
        Some(s) => text_is(s, name),
        None => false,
    }
}

/// The static name of the property that `node` reads, if it has one.
pub fn get_property(node: &MemberExpr) -> (name: Option<String>)
    ensures
        name_view(name) == static_key(node@.prop),
{
    assert(node@.prop == node.prop@);
    match key_text(&node.prop) {
        Some(s) => Some(s.clone()),
        None => None,
    }
}

} // verus!
