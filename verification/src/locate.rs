//! Locating a reusable impl block: the first inherent impl of the module
//! whose self type resolves to the target declaration, and the
//! case-insensitive name-collision check against its function members.

use vstd::prelude::*;
use crate::model::{AdtData, AssocItemListData, ImplData, ImplMember, ModuleData};
use crate::strutil::{clone_opt_string, eq_ignore_ascii_case_seq, str_eq_ignore_ascii_case};

verus! {

/// The three-way answer of the impl search.
pub enum ImplSearchOutcome {
    /// A matching impl exists and already defines a colliding member; the
    /// caller must abort with no edit.
    Conflict,
    /// The index of a matching, reusable impl in the module's list.
    Found(usize),
    /// No matching impl; the caller must synthesize one.
    NotFound,
}

/// Whether an impl block is a reusable match for the resolved type `id`: its
/// self type resolves to the same declaration and it implements no trait.
pub open spec fn impl_matches(i: ImplData, id: u64) -> bool {
    match i.semantics {
        Some(s) => s.self_ty_adt == Some(id) && !s.is_trait_impl,
        None => false,
    }
}

/// Whether position `k` holds the first matching impl of the list.
pub open spec fn first_match_at(impls: Seq<ImplData>, id: u64, k: int) -> bool {
    &&& 0 <= k < impls.len()
    &&& impl_matches(impls[k], id)
    &&& forall|j: int| 0 <= j < k ==> !impl_matches(impls[j], id)
}

/// Whether no impl of the list matches.
pub open spec fn no_match(impls: Seq<ImplData>, id: u64) -> bool {
    forall|j: int| 0 <= j < impls.len() ==> !impl_matches(impls[j], id)
}

/// Whether one existing member collides with the candidate name: it is a
/// function and its name matches case-insensitively.
pub open spec fn member_conflicts(m: ImplMember, name: Seq<char>) -> bool {
    m.is_fn && match m.name {
        Some(n) => eq_ignore_ascii_case_seq(n@, name),
        None => false,
    }
}

/// Whether an impl block already defines a function member whose name
/// collides case-insensitively with `name`.
pub open spec fn impl_has_conflict(i: ImplData, name: Seq<char>) -> bool {
    match i.item_list {
        Some(l) => exists|j: int|
            0 <= j < l.members@.len() && member_conflicts(l.members@[j], name),
        None => false,
    }
}

/// Reports whether the impl block already defines a function member whose
/// name collides case-insensitively with `rhs_name`.
pub fn has_fn(imp: &ImplData, rhs_name: &str) -> (r: bool)
    ensures
        r == impl_has_conflict(*imp, rhs_name@),
{
    match &imp.item_list {
        Some(il) => {
            let mut j: usize = 0;
            while j < il.members.len()
                invariant
                    imp.item_list == Some(*il),
                    j <= il.members@.len(),
                    forall|m: int| 0 <= m < j ==> !member_conflicts(il.members@[m], rhs_name@),
                decreases il.members@.len() - j,
            {
                let member = &il.members[j];
                if member.is_fn {
                    match &member.name {
                        Some(n) => {
                            if str_eq_ignore_ascii_case(n.as_str(), rhs_name) {
                                proof {
                                    assert(member_conflicts(il.members@[j as int], rhs_name@));
                                    assert(impl_has_conflict(*imp, rhs_name@));
                                }
                                return true;
                            }
                        },
                        None => {},
                    }
                }
                j += 1;
            }
            false
        },
        None => false,
    }
}

/// The function members that have a name, in order.
pub open spec fn named_methods(ms: Seq<ImplMember>) -> Seq<ImplMember>
    decreases ms.len(),
{
    if ms.len() == 0 {
        Seq::empty()
    } else {
        named_methods(ms.drop_last()) + (if ms.last().is_fn && ms.last().name is Some {
            seq![ms.last()]
        } else {
            Seq::empty()
        })
    }
}

/// Collects the named function members of an impl block's item list.
pub fn get_methods(items: &AssocItemListData) -> (r: Vec<ImplMember>)
    ensures
        r@ == named_methods(items.members@),
{
    let ms = &items.members;
    let mut r: Vec<ImplMember> = Vec::new();
    let mut i: usize = 0;
    while i < ms.len()
        invariant
            i <= ms@.len(),
            r@ == named_methods(ms@.take(i as int)),
        decreases ms@.len() - i,
    {
        proof {
            assert(ms@.take(i + 1).drop_last() =~= ms@.take(i as int));
            assert(ms@.take(i + 1).last() == ms@[i as int]);
        }
        let ghost prev = r@;
        let m = &ms[i];
        if m.is_fn && m.name.is_some() {
            let copied = ImplMember { is_fn: m.is_fn, name: clone_opt_string(&m.name) };
            proof {
                assert(copied == ms@[i as int]);
            }
            r.push(copied);
            proof {
                assert(named_methods(ms@.take(i + 1)) =~= prev.push(ms@[i as int]));
            }
        } else {
            proof {
                assert(named_methods(ms@.take(i + 1)) =~= prev);
            }
        }
        i += 1;
    }
    proof {
        assert(ms@.take(ms@.len() as int) =~= ms@);
    }
    r
}

/// Finds the first inherent impl of the module whose self type resolves to
/// `id`.
pub fn locate_inherent_impl(module: &ModuleData, id: u64) -> (r: Option<usize>)
    ensures
        match r {
            Some(k) => first_match_at(module.impls@, id, k as int),
            None => no_match(module.impls@, id),
        },
{
    let mut i: usize = 0;
    while i < module.impls.len()
        invariant
            i <= module.impls@.len(),
            forall|j: int| 0 <= j < i ==> !impl_matches(module.impls@[j], id),
        decreases module.impls@.len() - i,
    {
        let blk = &module.impls[i];
        match &blk.semantics {
            Some(s) => {
                let same_ty = match s.self_ty_adt {
                    Some(other) => other == id,
                    None => false,
                };
                if same_ty && !s.is_trait_impl {
                    return Some(i);
                }
            },
            None => {},
        }
        i += 1;
    }
    None
}

/// Searches the module for an impl block reusable for the target type, with
/// a collision pre-check for the one member name about to be added. Yields
/// nothing when the target declaration does not resolve; otherwise reports
/// a conflict, the first matching inherent impl, or that none exists.
pub fn find_struct_impl(module: &ModuleData, adt: &AdtData, name: &str) -> (r: Option<
    ImplSearchOutcome,
>)
    ensures
        r is None <==> adt.semantic_id is None,
        match adt.semantic_id {
            Some(id) => match r {
                Some(outcome) => match outcome {
                    ImplSearchOutcome::Conflict => exists|k: int|
                        first_match_at(module.impls@, id, k) && impl_has_conflict(
                            #[trigger] module.impls@[k],
                            name@,
                        ),
                    ImplSearchOutcome::Found(k) => first_match_at(module.impls@, id, k as int)
                        && !impl_has_conflict(module.impls@[k as int], name@),
                    ImplSearchOutcome::NotFound => no_match(module.impls@, id),
                },
                None => false,
            },
            None => true,
        },
{
    let id = match adt.semantic_id {
        Some(id) => id,
        None => {
            return None;
        },
    };
    match locate_inherent_impl(module, id) {
        Some(k) => {
            if has_fn(&module.impls[k], name) {
                Some(ImplSearchOutcome::Conflict)
            } else {
                Some(ImplSearchOutcome::Found(k))
            }
        },
        None => Some(ImplSearchOutcome::NotFound),
    }
}

} // verus!
