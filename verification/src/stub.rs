//! Preparation of the selected candidates for insertion: attributes and
//! documentation are stripped, a function without a body receives exactly
//! one synthesized placeholder body, a type alias loses its bound list, a
//! constant is kept verbatim; and the prepared items are rendered as text.
//!
//! Candidates are handed in with references to the trait's generic
//! parameters already rewritten for the impl's scope: that path-substitution
//! pass belongs to the host's semantic engine, which owns the syntax trees.

use vstd::prelude::*;
use vstd::string::*;
use crate::model::{AssocItemCandidate, AssocItemFragment, AssocItemListData, ImplData, ImplMember,
    ImplSemantics};
use crate::strutil::{clone_opt_string, concat_each_with};

verus! {

/// The synthesized placeholder body: one unfinished-marker statement,
/// indented one level relative to the impl block.
pub open spec fn placeholder_body_text() -> Seq<char> {
    "{\n        todo!()\n    }"@
}

/// Builds the placeholder body.
pub fn placeholder_body() -> (r: String)
    ensures
        r@ == placeholder_body_text(),
{
    String::from_str("{\n        todo!()\n    }")
}

/// How a prepared candidate relates to the selected one: the name is kept,
/// attributes and documentation are removed, a function keeps its body or —
/// exactly when it has none — receives the placeholder, a type alias loses
/// its bound list, and a constant is untouched.
pub open spec fn prepared_from(orig: AssocItemCandidate, new: AssocItemCandidate) -> bool {
    &&& new.name == orig.name
    &&& new.attrs@ == Seq::<String>::empty()
    &&& match orig.fragment {
        AssocItemFragment::Method { signature, body } => match new.fragment {
            AssocItemFragment::Method { signature: ns, body: nb } => {
                &&& ns == signature
                &&& match body {
                    Some(b) => nb == Some(b),
                    None => nb matches Some(p) && p@ == placeholder_body_text(),
                }
            },
            _ => false,
        },
        AssocItemFragment::TypeAlias { head, bounds: _, tail } => new.fragment
            == (AssocItemFragment::TypeAlias { head, bounds: None, tail }),
        AssocItemFragment::ConstItem { text } => new.fragment == orig.fragment,
    }
}

/// Prepares one selected candidate for insertion.
pub fn prepare_candidate(item: AssocItemCandidate) -> (r: AssocItemCandidate)
    ensures
        prepared_from(item, r),
{
    let fragment = match item.fragment {
        AssocItemFragment::Method { signature, body } => {
            let new_body = match body {
                Some(b) => Some(b),
                None => Some(placeholder_body()),
            };
            AssocItemFragment::Method { signature, body: new_body }
        },
        AssocItemFragment::TypeAlias { head, bounds: _, tail } => AssocItemFragment::TypeAlias {
            head,
            bounds: None,
            tail,
        },
        AssocItemFragment::ConstItem { text } => AssocItemFragment::ConstItem { text },
    };
    AssocItemCandidate { name: item.name, attrs: Vec::new(), fragment }
}

/// The rendered text of a candidate's fragment.
pub open spec fn rendered_fragment(f: AssocItemFragment) -> Seq<char> {
    match f {
        AssocItemFragment::Method { signature, body } => signature@ + (match body {
            Some(b) => " "@ + b@,
            None => Seq::empty(),
        }),
        AssocItemFragment::TypeAlias { head, bounds, tail } => head@ + (match bounds {
            Some(b) => ": "@ + b@,
            None => Seq::empty(),
        }) + tail@,
        AssocItemFragment::ConstItem { text } => text@,
    }
}

/// The views of attribute lines, in order.
pub open spec fn attr_views(attrs: Seq<String>) -> Seq<Seq<char>>
    decreases attrs.len(),
{
    if attrs.len() == 0 {
        Seq::empty()
    } else {
        attr_views(attrs.drop_last()) + seq![attrs.last()@]
    }
}

/// The rendered text of a whole candidate: its attribute lines, each on its
/// own line, then its fragment.
pub open spec fn rendered_candidate(c: AssocItemCandidate) -> Seq<char> {
    concat_each_with(attr_views(c.attrs@), "\n"@) + rendered_fragment(c.fragment)
}

/// The rendered text of a candidate once prepared: attributes are gone, a
/// function shows exactly one body — its own, or the placeholder when it
/// had none — a type alias shows no bound list, a constant is verbatim.
pub open spec fn rendered_prepared(c: AssocItemCandidate) -> Seq<char> {
    match c.fragment {
        AssocItemFragment::Method { signature, body } => signature@ + " "@ + (match body {
            Some(b) => b@,
            None => placeholder_body_text(),
        }),
        AssocItemFragment::TypeAlias { head, bounds: _, tail } => head@ + tail@,
        AssocItemFragment::ConstItem { text } => text@,
    }
}

/// Renders one candidate as source text.
pub fn render_assoc_item(c: &AssocItemCandidate) -> (r: String)
    ensures
        r@ == rendered_candidate(*c),
{
    let mut r = String::new();
    let mut i: usize = 0;
    while i < c.attrs.len()
        invariant
            i <= c.attrs@.len(),
            r@ == concat_each_with(attr_views(c.attrs@.take(i as int)), "\n"@),
        decreases c.attrs@.len() - i,
    {
        proof {
            assert(c.attrs@.take(i + 1).drop_last() =~= c.attrs@.take(i as int));
            assert(c.attrs@.take(i + 1).last() == c.attrs@[i as int]);
            assert(attr_views(c.attrs@.take(i + 1)).drop_last() =~= attr_views(
                c.attrs@.take(i as int),
            ));
            assert(attr_views(c.attrs@.take(i + 1)).last() == c.attrs@[i as int]@);
        }
        r.append(c.attrs[i].as_str());
        r.append("\n");
        i += 1;
    }
    proof {
        assert(c.attrs@.take(c.attrs@.len() as int) =~= c.attrs@);
    }
    match &c.fragment {
        AssocItemFragment::Method { signature, body } => {
            r.append(signature.as_str());
            match body {
                Some(b) => {
                    r.append(" ");
                    r.append(b.as_str());
                },
                None => {},
            }
        },
        AssocItemFragment::TypeAlias { head, bounds, tail } => {
            r.append(head.as_str());
            match bounds {
                Some(b) => {
                    r.append(": ");
                    r.append(b.as_str());
                },
                None => {},
            }
            r.append(tail.as_str());
        },
        AssocItemFragment::ConstItem { text } => {
            r.append(text.as_str());
        },
    }
    proof {
        assert(r@ =~= rendered_candidate(*c));
    }
    r
}

/// A copy of a candidate's fragment, equal to the original.
pub fn clone_fragment(f: &AssocItemFragment) -> (r: AssocItemFragment)
    ensures
        r == *f,
{
    match f {
        AssocItemFragment::Method { signature, body } => AssocItemFragment::Method {
            signature: signature.clone(),
            body: clone_opt_string(body),
        },
        AssocItemFragment::TypeAlias { head, bounds, tail } => AssocItemFragment::TypeAlias {
            head: head.clone(),
            bounds: clone_opt_string(bounds),
            tail: tail.clone(),
        },
        AssocItemFragment::ConstItem { text } => AssocItemFragment::ConstItem {
            text: text.clone(),
        },
    }
}

/// The member record a prepared candidate adds to an impl's item list.
pub open spec fn member_record_of(c: AssocItemCandidate) -> ImplMember {
    ImplMember { is_fn: c.fragment is Method, name: Some(c.name) }
}

/// Prepares every selected candidate, appends the matching member records
/// to the impl's item list — created empty when the block had none — and
/// hands back the updated impl, the prepared items in order, and the first
/// of them, on which the caller places the editing cursor.
pub fn add_trait_assoc_items_to_impl(impl_: &ImplData, items: Vec<AssocItemCandidate>) -> (r: (
    ImplData,
    Vec<AssocItemCandidate>,
    AssocItemCandidate,
))
    requires
        items@.len() > 0,
    ensures
        r.1@.len() == items@.len(),
        forall|i: int| 0 <= i < items@.len() ==> prepared_from(items@[i], #[trigger] r.1@[i]),
        prepared_from(items@[0], r.2),
        r.0.semantics == impl_.semantics,
        match impl_.item_list {
            Some(l) => r.0.item_list matches Some(nl) && nl.lcurly_end == l.lcurly_end
                && nl.rcurly_prev_end == l.rcurly_prev_end && nl.members@.len() == l.members@.len()
                + items@.len() && (forall|i: int|
                0 <= i < l.members@.len() ==> nl.members@[i] == l.members@[i]) && (forall|i: int|
                0 <= i < items@.len() ==> nl.members@[l.members@.len() + i] == member_record_of(
                    #[trigger] r.1@[i],
                )),
            None => r.0.item_list matches Some(nl) && nl.lcurly_end is None
                && nl.rcurly_prev_end is None && nl.members@.len() == items@.len() && (forall|i: int|
                0 <= i < items@.len() ==> nl.members@[i] == member_record_of(#[trigger] r.1@[i])),
        },
{
    let ghost all = items@;
    let mut items = items;
    let total: usize = items.len();
    let mut prepared: Vec<AssocItemCandidate> = Vec::new();
    let mut new_members: Vec<ImplMember> = Vec::new();
    let mut i: usize = 0;
    while items.len() > 0
        invariant
            i <= all.len(),
            all.len() == total as int,
            items@ == all.skip(i as int),
            prepared@.len() == i,
            new_members@.len() == i,
            forall|m: int| 0 <= m < i ==> prepared_from(all[m], #[trigger] prepared@[m]),
            forall|m: int| 0 <= m < i ==> new_members@[m] == member_record_of(prepared@[m]),
        decreases items@.len(),
    {
        let it = items.remove(0);
        proof {
            assert(it == all[i as int]);
            assert(all.skip(i as int).remove(0) =~= all.skip(i + 1));
        }
        let p = prepare_candidate(it);
        let is_fn = match &p.fragment {
            AssocItemFragment::Method { .. } => true,
            _ => false,
        };
        new_members.push(ImplMember { is_fn, name: Some(p.name.clone()) });
        prepared.push(p);
        i += 1;
    }
    let first = clone_candidate(&prepared[0]);
    let new_list = match &impl_.item_list {
        Some(l) => {
            let mut members = clone_members(&l.members);
            let mut extra = new_members;
            members.append(&mut extra);
            AssocItemListData {
                members,
                lcurly_end: l.lcurly_end,
                rcurly_prev_end: l.rcurly_prev_end,
            }
        },
        None => AssocItemListData {
            members: new_members,
            lcurly_end: None,
            rcurly_prev_end: None,
        },
    };
    let semantics = match &impl_.semantics {
        Some(s) => Some(
            ImplSemantics { self_ty_adt: s.self_ty_adt, is_trait_impl: s.is_trait_impl },
        ),
        None => None,
    };
    (ImplData { semantics, item_list: Some(new_list) }, prepared, first)
}

/// A copy of a candidate, equal to the original field for field, the
/// attribute list compared by its contents.
pub fn clone_candidate(c: &AssocItemCandidate) -> (r: AssocItemCandidate)
    ensures
        r.name == c.name,
        r.attrs@ == c.attrs@,
        r.fragment == c.fragment,
{
    AssocItemCandidate {
        name: c.name.clone(),
        attrs: crate::strutil::clone_string_vec(&c.attrs),
        fragment: clone_fragment(&c.fragment),
    }
}

/// A copy of an impl's member list, equal to the original element for
/// element.
pub fn clone_members(ms: &Vec<ImplMember>) -> (r: Vec<ImplMember>)
    ensures
        r@ == ms@,
{
    let mut r: Vec<ImplMember> = Vec::new();
    let mut i: usize = 0;
    while i < ms.len()
        invariant
            i <= ms@.len(),
            r@.len() == i,
            forall|j: int| 0 <= j < i ==> r@[j] == ms@[j],
        decreases ms@.len() - i,
    {
        r.push(ImplMember { is_fn: ms[i].is_fn, name: clone_opt_string(&ms[i].name) });
        i += 1;
    }
    proof {
        assert(r@ =~= ms@);
    }
    r
}

} // verus!
