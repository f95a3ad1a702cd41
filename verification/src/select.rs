//! Selection of a trait's associated items: the engine works on the items
//! that have a source-backed, named declaration and that fit the requested
//! default-handling mode.

use vstd::prelude::*;
use crate::model::{AssocItemCandidate, AssocItemDecl, AssocItemFragment, AssocItemSource};

verus! {

/// Whether to select only associated functions that have a default body, or
/// only items without one.
#[derive(Clone, Copy, PartialEq, Eq, Structural)]
pub enum DefaultMethods {
    Only,
    No,
}

/// Whether one enumerated item is selected: it must have a source-backed
/// declaration with a name; a function is matched against the mode by the
/// presence of its body, and a type alias or constant is selected exactly
/// when defaulted items are not asked for.
pub open spec fn keep_assoc_item(it: AssocItemSource, mode: DefaultMethods) -> bool {
    match it.source {
        None => false,
        Some(d) => match d.name {
            None => false,
            Some(_) => match d.fragment {
                AssocItemFragment::Method { signature: _, body } => (mode == DefaultMethods::Only
                    && body is Some) || (mode == DefaultMethods::No && body is None),
                _ => mode == DefaultMethods::No,
            },
        },
    }
}

/// The candidate a selected item turns into: the engine takes ownership of
/// the declaration's name, attributes and fragment.
pub open spec fn candidate_of(d: AssocItemDecl) -> AssocItemCandidate {
    AssocItemCandidate { name: d.name->Some_0, attrs: d.attrs, fragment: d.fragment }
}

/// The candidates selected from the enumerated items, in declaration order.
pub open spec fn selected_candidates(items: Seq<AssocItemSource>, mode: DefaultMethods) -> Seq<
    AssocItemCandidate,
>
    decreases items.len(),
{
    if items.len() == 0 {
        Seq::empty()
    } else {
        let rest = selected_candidates(items.drop_last(), mode);
        if keep_assoc_item(items.last(), mode) {
            rest + seq![candidate_of(items.last().source->Some_0)]
        } else {
            rest
        }
    }
}

/// Filters a trait's associated items down to the candidates the synthesis
/// works on, keeping declaration order; items without a source declaration
/// or without a name are dropped.
pub fn filter_assoc_items(items: Vec<AssocItemSource>, default_methods: DefaultMethods) -> (r: Vec<
    AssocItemCandidate,
>)
    ensures
        r@ == selected_candidates(items@, default_methods),
{
    let ghost all = items@;
    let mut items = items;
    let total: usize = items.len();
    let mut r: Vec<AssocItemCandidate> = Vec::new();
    let mut i: usize = 0;
    while items.len() > 0
        invariant
            i <= all.len(),
            all.len() == total as int,
            items@ == all.skip(i as int),
            r@ == selected_candidates(all.take(i as int), default_methods),
        decreases items@.len(),
    {
        let it = items.remove(0);
        proof {
            assert(it == all[i as int]);
            assert(all.skip(i as int).remove(0) =~= all.skip(i + 1));
            assert(all.take(i + 1).drop_last() =~= all.take(i as int));
            assert(all.take(i + 1).last() == all[i as int]);
        }
        match it.source {
            Some(d) => {
                let keep_kind = match &d.fragment {
                    AssocItemFragment::Method { signature: _, body } => match default_methods {
                        DefaultMethods::Only => body.is_some(),
                        DefaultMethods::No => body.is_none(),
                    },
                    _ => default_methods == DefaultMethods::No,
                };
                match d.name {
                    Some(name) => {
                        if keep_kind {
                            r.push(
                                AssocItemCandidate {
                                    name,
                                    attrs: d.attrs,
                                    fragment: d.fragment,
                                },
                            );
                        }
                    },
                    None => {},
                }
            },
            None => {},
        }
        i += 1;
    }
    proof {
        assert(all.take(i as int) =~= all);
    }
    r
}

} // verus!
