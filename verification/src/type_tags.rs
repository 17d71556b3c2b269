//! The type mapper: from a type annotation to its ordered list of type tags.
use vstd::prelude::*;
use crate::types::{TsEntityName, TsEntityNameView, TsKeyword, TsType, TsTypeView};

verus! {

/// The views of a list of strings, in order.
pub open spec fn texts(v: Seq<String>) -> Seq<Seq<char>> {
    v.map_values(|s: String| s@)
}

/// The tag of a keyword type.
pub open spec fn keyword_tag(k: TsKeyword) -> Seq<char> {
    match k {
        TsKeyword::Number => "number"@,
        TsKeyword::Boolean => "boolean"@,
        TsKeyword::String => "string"@,
        TsKeyword::Void => "void"@,
        _ => "any"@,
    }
}

/// The tags of a type annotation, in order and with duplicates. A union has
/// the tags of its members, concatenated from left to right.
pub open spec fn type_tags(t: TsTypeView) -> Seq<Seq<char>>
    decreases t,
{
    match t {
        TsTypeView::Keyword(k) => seq![keyword_tag(k)],
        TsTypeView::Array(_) => seq!["array"@],
        TsTypeView::Paren(inner) => type_tags(*inner),
        TsTypeView::Union(members) => member_tags(members).flatten(),
        TsTypeView::Ref(TsEntityNameView::Ident(name)) => seq![name],
        _ => seq!["any"@],
    }
}

/// The tags of each member of a union, in order.
pub open spec fn member_tags(members: Seq<TsTypeView>) -> Seq<Seq<Seq<char>>>
    decreases members,
{
    Seq::new(
        members.len(),
        |i: int|
            if 0 <= i < members.len() {
                type_tags(members[i])
            } else {
                arbitrary()
            },
    )
}

/// Whether a type annotation has a tag at all. Only a union can have none:
/// one whose members, if it has any, have none either.
pub open spec fn has_tag(t: TsTypeView) -> bool
    decreases t,
{
    match t {
        TsTypeView::Paren(inner) => has_tag(*inner),
        TsTypeView::Union(members) => exists|i: int|
            0 <= i < members.len() && has_tag(#[trigger] members[i]),
        _ => true,
    }
}

/// A type annotation has at least one tag exactly if `has_tag` holds of it.
pub proof fn lemma_tags_nonempty(t: TsTypeView)
    ensures
        type_tags(t).len() > 0 <==> has_tag(t),
    decreases t, 0nat,
{
    match t {
        TsTypeView::Paren(inner) => {
            lemma_tags_nonempty(*inner);
        },
        TsTypeView::Union(members) => {
            lemma_member_tags_nonempty(members, members.len());
            assert(member_tags(members).take(members.len() as int) =~= member_tags(members));
        },
        _ => {},
    }
}

/// The first `n` members of a union have a tag between them exactly if one
/// of them has a tag.
pub proof fn lemma_member_tags_nonempty(members: Seq<TsTypeView>, n: nat)
    requires
        n <= members.len(),
    ensures
        member_tags(members).take(n as int).flatten().len() > 0 <==> exists|i: int|
            0 <= i < n && has_tag(#[trigger] members[i]),
    decreases members, n,
{
    let all = member_tags(members);
    if n == 0 {
        assert(all.take(0) =~= Seq::<Seq<Seq<char>>>::empty());
    } else {
        let k = (n - 1) as nat;
        lemma_member_tags_nonempty(members, k);
        lemma_tags_nonempty(members[k as int]);
        assert(all.take(n as int) =~= all.take(k as int).push(type_tags(members[k as int])));
        all.take(k as int).lemma_flatten_push(type_tags(members[k as int]));
        if has_tag(members[k as int]) {
        } else if exists|i: int| 0 <= i < k && has_tag(#[trigger] members[i]) {
        } else {
            assert forall|i: int| 0 <= i < n implies !has_tag(#[trigger] members[i]) by {
                if i < k {
                }
            }
        }
    }
}

fn keyword_tag_of(k: TsKeyword) -> (tag: String)
    ensures
        tag@ == keyword_tag(k),
{
    match k {
        TsKeyword::Number => String::from_str("number"),
        TsKeyword::Boolean => String::from_str("boolean"),
        TsKeyword::String => String::from_str("string"),
        TsKeyword::Void => String::from_str("void"),
        _ => String::from_str("any"),
    }
}

/// Maps a type annotation to its type tags.
pub fn get_type(t: &TsType) -> (tags: Vec<String>)
    ensures
        texts(tags@) == type_tags(t@),
    decreases t,
{
    let mut tags: Vec<String> = Vec::new();
    match t {
        TsType::Keyword(k) => {
            tags.push(keyword_tag_of(*k));
            assert(texts(tags@) =~= seq![keyword_tag(*k)]);
        },
        TsType::Array(_) => {
            tags.push(String::from_str("array"));
            assert(texts(tags@) =~= seq!["array"@]);
        },
        TsType::Paren(inner) => {
            tags = get_type(inner);
        },
        TsType::Union(members) => {
            let ghost each = member_tags(t@->Union_0);
            let mut i: usize = 0;
            assert(texts(tags@) =~= each.take(0).flatten());
            while i < members.len()
                invariant
                    i <= members.len(),
                    t is Union,
                    t->Union_0 == *members,
                    each == member_tags(t@->Union_0),
                    texts(tags@) == each.take(i as int).flatten(),
                decreases members.len() - i,
            {
                let mut part = get_type(&members[i]);
                let ghost before = tags@;
                let ghost added = part@;
                tags.append(&mut part);
                proof {
                    assert(texts(tags@) =~= texts(before) + texts(added));
                    assert(each.take(i + 1) =~= each.take(i as int).push(texts(added)));
                    each.take(i as int).lemma_flatten_push(texts(added));
                }
                i += 1;
            }
            assert(each.take(i as int) =~= each);
        },
        TsType::Ref(TsEntityName::Ident(name)) => {
            tags.push(name.clone());
            assert(texts(tags@) =~= seq![name@]);
        },
        _ => {
            tags.push(String::from_str("any"));
            assert(texts(tags@) =~= seq!["any"@]);
        },
    }
    tags
}

} // verus!
