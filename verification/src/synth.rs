//! The synthesis driver: select the trait's items, guard against name
//! collisions, decide between extending a located inherent impl and
//! generating a new impl block, and stage the resulting edit. Any unmet
//! precondition aborts the whole request with no edit staged.

use vstd::prelude::*;
use vstd::string::*;
use crate::model::{AdtData, AssocItemCandidate, AssocItemSource, ImplData, ModuleData};
use crate::select::{filter_assoc_items, selected_candidates, DefaultMethods};
use crate::locate::{first_match_at, has_fn, impl_has_conflict, locate_inherent_impl, no_match};
use crate::stub::{clone_candidate, prepare_candidate, prepared_from, render_assoc_item,
    rendered_candidate, rendered_prepared};
use crate::generate::{generate_trait_impl_text, impl_text_spec};
use crate::insert::{impl_block_end, InsertionPoint};
use crate::strutil::{concat_each_with, join_seqs, join_strings, str_eq, str_views};

verus! {

/// How a synthesis request ends: not applicable here (with no edit), a name
/// conflict (with no edit, but reportable), or a staged edit with the first
/// synthesized item as the cursor anchor.
pub enum SynthesisOutcome {
    NotApplicable,
    Conflict,
    Edit { point: InsertionPoint, anchor: AssocItemCandidate },
}

/// The candidate names are pairwise distinct.
pub open spec fn candidate_names_unique(cs: Seq<AssocItemCandidate>) -> bool {
    forall|a: int, b: int| 0 <= a < b < cs.len() ==> cs[a].name@ != cs[b].name@
}

/// Some candidate's name collides case-insensitively with a function member
/// of the impl block.
pub open spec fn some_candidate_conflicts(cs: Seq<AssocItemCandidate>, imp: ImplData) -> bool {
    exists|k: int| 0 <= k < cs.len() && impl_has_conflict(imp, cs[k].name@)
}

/// The rendered texts of the candidates once prepared, in order.
pub open spec fn prepared_renders(cs: Seq<AssocItemCandidate>) -> Seq<Seq<char>>
    decreases cs.len(),
{
    if cs.len() == 0 {
        Seq::empty()
    } else {
        prepared_renders(cs.drop_last()) + seq![rendered_prepared(cs.last())]
    }
}

/// The body of the staged edit: every prepared candidate's text, joined by
/// newlines, in selection order.
pub open spec fn joined_body(cs: Seq<AssocItemCandidate>) -> Seq<char> {
    join_seqs(prepared_renders(cs), "\n"@)
}

/// A prepared candidate renders exactly as the selected one it came from
/// determines: no attributes, one body, no type-alias bounds.
pub proof fn lemma_rendered_prepared(orig: AssocItemCandidate, new: AssocItemCandidate)
    requires
        prepared_from(orig, new),
    ensures
        rendered_candidate(new) == rendered_prepared(orig),
{
    assert(concat_each_with(crate::stub::attr_views(new.attrs@), "\n"@) =~= Seq::<char>::empty());
    assert(rendered_candidate(new) =~= rendered_prepared(orig));
}

/// Runs one whole synthesis request against a read-only snapshot: the
/// enclosing module, the target type declaration, the trait's name as it
/// should appear in a generated header, the trait's associated items and
/// the selection mode.
///
/// The request is refused with no edit when nothing is selected, when the
/// selected names are not pairwise distinct, when the target declaration
/// does not resolve, or when a located impl block lacks its closing brace;
/// it ends in `Conflict`, again with no edit, when a located impl already
/// defines a function member whose name case-insensitively matches a
/// candidate. Otherwise the staged edit appends the prepared items inside
/// the located impl block, or wraps them in a generated
/// `impl <Trait> for <Type>` placed right after the type declaration.
#[verifier::loop_isolation(false)]
pub fn synthesize_trait_impl(
    module: &ModuleData,
    adt: &AdtData,
    trait_text: &str,
    items: Vec<AssocItemSource>,
    mode: DefaultMethods,
) -> (r: SynthesisOutcome)
    ensures
        ({
            let cands = selected_candidates(items@, mode);
            let impls = module.impls@;
            match r {
                SynthesisOutcome::NotApplicable => cands.len() == 0 || !candidate_names_unique(
                    cands,
                ) || adt.semantic_id is None || (exists|k: int|
                    first_match_at(impls, adt.semantic_id->Some_0, k) && !some_candidate_conflicts(
                        cands,
                        #[trigger] impls[k],
                    ) && impl_block_end(impls[k]) is None),
                SynthesisOutcome::Conflict => {
                    &&& adt.semantic_id is Some
                    &&& cands.len() > 0
                    &&& candidate_names_unique(cands)
                    &&& exists|k: int|
                        first_match_at(impls, adt.semantic_id->Some_0, k)
                            && some_candidate_conflicts(cands, #[trigger] impls[k])
                },
                SynthesisOutcome::Edit { point, anchor } => {
                    &&& adt.semantic_id is Some
                    &&& cands.len() > 0
                    &&& candidate_names_unique(cands)
                    &&& prepared_from(cands[0], anchor)
                    &&& ((exists|k: int|
                        first_match_at(impls, adt.semantic_id->Some_0, k)
                            && !some_candidate_conflicts(cands, #[trigger] impls[k])
                            && impl_block_end(impls[k]) == Some(point.offset) && point.text@ == "\n"@
                            + joined_body(cands)) || (no_match(impls, adt.semantic_id->Some_0)
                        && point.offset == adt.end_offset && point.text@ == impl_text_spec(
                        *adt,
                        Some(trait_text@),
                        joined_body(cands),
                    )))
                },
            }
        }),
{
    let ghost all_items = items@;
    let cands = filter_assoc_items(items, mode);
    let ghost cs = selected_candidates(all_items, mode);
    if cands.len() == 0 {
        return SynthesisOutcome::NotApplicable;
    }
    // Uniqueness of the candidate names within the set.
    let n = cands.len();
    let mut a: usize = 0;
    while a < n
        invariant
            n == cs.len(),
            cands@ == cs,
            a <= n,
            forall|x: int, y: int| 0 <= x < y < n && x < a ==> cs[x].name@ != cs[y].name@,
        decreases n - a,
    {
        let mut b: usize = a + 1;
        while b < n
            invariant
                n == cs.len(),
                cands@ == cs,
                a < n,
                a < b,
                b <= n,
                forall|y: int| a < y < b ==> cs[a as int].name@ != cs[y].name@,
            decreases n - b,
        {
            if str_eq(cands[a].name.as_str(), cands[b].name.as_str()) {
                proof {
                    assert(!candidate_names_unique(cs));
                }
                return SynthesisOutcome::NotApplicable;
            }
            b += 1;
        }
        a += 1;
    }
    proof {
        assert(candidate_names_unique(cs));
    }
    let id = match adt.semantic_id {
        Some(id) => id,
        None => {
            return SynthesisOutcome::NotApplicable;
        },
    };
    // Locate a reusable inherent impl and guard every candidate name.
    let located = locate_inherent_impl(module, id);
    let mut end_offset: Option<usize> = None;
    let mut extend: bool = false;
    match located {
        Some(kk) => {
            let imp = &module.impls[kk];
            let mut m: usize = 0;
            while m < cands.len()
                invariant
                    cands@ == cs,
                    m <= cs.len(),
                    kk < module.impls@.len(),
                    *imp == module.impls@[kk as int],
                    forall|x: int| 0 <= x < m ==> !impl_has_conflict(*imp, cs[x].name@),
                decreases cs.len() - m,
            {
                if has_fn(imp, cands[m].name.as_str()) {
                    proof {
                        assert(some_candidate_conflicts(cs, module.impls@[kk as int]));
                    }
                    return SynthesisOutcome::Conflict;
                }
                m += 1;
            }
            proof {
                assert(!some_candidate_conflicts(cs, module.impls@[kk as int]));
            }
            end_offset = match &imp.item_list {
                Some(l) => l.rcurly_prev_end,
                None => None,
            };
            if end_offset.is_none() {
                return SynthesisOutcome::NotApplicable;
            }
            extend = true;
            proof {
                assert(impl_block_end(module.impls@[kk as int]) == end_offset);
            }
        },
        None => {},
    }
    // Prepare every candidate and render it.
    let total: usize = cands.len();
    let mut cands = cands;
    let mut prepared: Vec<AssocItemCandidate> = Vec::new();
    let mut renders: Vec<String> = Vec::new();
    let mut i: usize = 0;
    while cands.len() > 0
        invariant
            i <= cs.len(),
            cs.len() == total as int,
            cands@ == cs.skip(i as int),
            prepared@.len() == i,
            forall|x: int| 0 <= x < i ==> prepared_from(cs[x], #[trigger] prepared@[x]),
            str_views(renders@) == prepared_renders(cs.take(i as int)),
        decreases cands@.len(),
    {
        let it = cands.remove(0);
        proof {
            assert(it == cs[i as int]);
            assert(cs.skip(i as int).remove(0) =~= cs.skip(i + 1));
            assert(cs.take(i + 1).drop_last() =~= cs.take(i as int));
            assert(cs.take(i + 1).last() == cs[i as int]);
        }
        let p = prepare_candidate(it);
        let ghost prev_views = str_views(renders@);
        let rendered = render_assoc_item(&p);
        let ghost rv = rendered@;
        proof {
            lemma_rendered_prepared(cs[i as int], p);
        }
        renders.push(rendered);
        prepared.push(p);
        proof {
            assert(str_views(renders@) =~= prev_views.push(rv));
            assert(prepared_renders(cs.take(i + 1)) =~= prev_views.push(rv));
        }
        i += 1;
    }
    proof {
        assert(cs.take(cs.len() as int) =~= cs);
    }
    let anchor = clone_candidate(&prepared[0]);
    proof {
        assert(prepared_from(cs[0], anchor));
    }
    let joined = join_strings(&renders, "\n");
    if extend {
        let offset = match end_offset {
            Some(e) => e,
            None => vstd::pervasive::unreached(),
        };
        let mut text = String::new();
        text.append("\n");
        text.append(joined.as_str());
        proof {
            let kg = located->Some_0 as int;
            assert(first_match_at(module.impls@, id, kg));
            assert(!some_candidate_conflicts(cs, module.impls@[kg]));
            assert(impl_block_end(module.impls@[kg]) == Some(offset));
            assert(text@ =~= "\n"@ + joined_body(cs));
        }
        SynthesisOutcome::Edit { point: InsertionPoint { offset, text }, anchor }
    } else {
        let text = generate_trait_impl_text(adt, trait_text, joined.as_str());
        SynthesisOutcome::Edit {
            point: InsertionPoint { offset: adt.end_offset, text },
            anchor,
        }
    }
}

} // verus!
