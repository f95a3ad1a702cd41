//! The engine's general guarantees, stated and proved once over all inputs:
//! the staged body holds every candidate in selection order, a function
//! candidate ends with exactly one body, a declaration without generics gets
//! a header without an angle clause, and the copied attribute block is
//! exactly the `cfg` attributes.

use vstd::prelude::*;
use crate::model::{AdtData, AssocItemCandidate, AssocItemFragment, AttrData};
use crate::generate::{cfg_attr_block, impl_text_spec, is_cfg_attr};
use crate::strutil::concat_each_with;
use crate::stub::{placeholder_body_text, prepared_from, rendered_prepared};
use crate::synth::{joined_body, prepared_renders};

verus! {

/// `part` stands verbatim in `text` at position `pos`.
pub open spec fn occurs_at(text: Seq<char>, part: Seq<char>, pos: int) -> bool {
    &&& 0 <= pos
    &&& pos + part.len() <= text.len()
    &&& text.subrange(pos, pos + part.len()) == part
}

/// Where candidate `i`'s prepared text starts inside the joined body: after
/// every earlier candidate's text and its separating newline.
pub open spec fn render_position(cs: Seq<AssocItemCandidate>, i: int) -> int
    decreases i,
{
    if i <= 0 {
        0
    } else {
        render_position(cs, i - 1) + rendered_prepared(cs[i - 1]).len() + 1
    }
}

/// The prepared renders line up with the candidates, one for one.
proof fn lemma_prepared_renders_facts(cs: Seq<AssocItemCandidate>)
    ensures
        prepared_renders(cs).len() == cs.len(),
        forall|i: int| 0 <= i < cs.len() ==> prepared_renders(cs)[i] == rendered_prepared(cs[i]),
    decreases cs.len(),
{
    if cs.len() > 0 {
        lemma_prepared_renders_facts(cs.drop_last());
    }
}

/// A candidate's position never precedes its index.
proof fn lemma_render_position_lower(cs: Seq<AssocItemCandidate>, i: int)
    requires
        0 <= i <= cs.len(),
    ensures
        render_position(cs, i) >= i,
    decreases i,
{
    if i > 0 {
        lemma_render_position_lower(cs, i - 1);
    }
}

/// The position of a candidate depends only on the candidates before it.
proof fn lemma_render_position_eq(cs1: Seq<AssocItemCandidate>, cs2: Seq<AssocItemCandidate>, i: int)
    requires
        0 <= i <= cs1.len(),
        i <= cs2.len(),
        forall|j: int| 0 <= j < i ==> cs1[j] == cs2[j],
    ensures
        render_position(cs1, i) == render_position(cs2, i),
    decreases i,
{
    if i > 0 {
        lemma_render_position_eq(cs1, cs2, i - 1);
    }
}

/// The joined body is one shorter than the position just past the last
/// candidate: each candidate contributes its text plus one separator, and
/// no separator follows the last.
proof fn lemma_joined_body_len(cs: Seq<AssocItemCandidate>)
    requires
        cs.len() > 0,
    ensures
        joined_body(cs).len() == render_position(cs, cs.len() as int) - 1,
    decreases cs.len(),
{
    reveal_strlit("\n");
    lemma_prepared_renders_facts(cs);
    assert(render_position(cs, 0) == 0);
    if cs.len() == 1 {
        assert(prepared_renders(cs)[0] == rendered_prepared(cs[0]));
        assert(joined_body(cs) == prepared_renders(cs)[0]);
    } else {
        lemma_joined_body_len(cs.drop_last());
        lemma_prepared_renders_facts(cs.drop_last());
        assert(prepared_renders(cs).drop_last() =~= prepared_renders(cs.drop_last()));
        lemma_render_position_eq(cs.drop_last(), cs, cs.len() - 1);
        assert(prepared_renders(cs).last() == rendered_prepared(cs.last()));
        assert(joined_body(cs) == joined_body(cs.drop_last()) + "\n"@ + rendered_prepared(
            cs.last(),
        ));
    }
}

/// What stands at a position inside a longer text still stands there when
/// more text follows.
proof fn lemma_occurs_in_prefix(a: Seq<char>, b: Seq<char>, part: Seq<char>, pos: int)
    requires
        occurs_at(a, part, pos),
    ensures
        occurs_at(a + b, part, pos),
{
    assert((a + b).subrange(pos, pos + part.len()) =~= a.subrange(pos, pos + part.len()));
}

/// Uniqueness invariant, order half: the staged body carries every selected
/// candidate's prepared text, each at its own position, in selection order
/// (the positions grow strictly with the index). Together with the
/// synthesis driver's contract — which under pairwise-distinct,
/// non-colliding names stages an edit whose text embeds exactly this body —
/// it says that a successful synthesis emits exactly the candidates, in
/// original order.
pub proof fn lemma_candidates_in_order(cs: Seq<AssocItemCandidate>, i: int)
    requires
        0 <= i < cs.len(),
    ensures
        occurs_at(joined_body(cs), rendered_prepared(cs[i]), render_position(cs, i)),
        i > 0 ==> render_position(cs, i - 1) < render_position(cs, i),
    decreases cs.len(),
{
    reveal_strlit("\n");
    let renders = prepared_renders(cs);
    let joined = joined_body(cs);
    lemma_prepared_renders_facts(cs);
    assert(render_position(cs, 0) == 0);
    lemma_render_position_lower(cs, i);
    if i > 0 {
        lemma_render_position_lower(cs, i - 1);
    }
    if cs.len() == 1 {
        assert(renders[0] == rendered_prepared(cs[0]));
        assert(joined == rendered_prepared(cs[0]));
        assert(joined.subrange(0, rendered_prepared(cs[0]).len() as int) =~= rendered_prepared(
            cs[0],
        ));
    } else {
        let prev = cs.drop_last();
        let last_render = rendered_prepared(cs.last());
        lemma_prepared_renders_facts(prev);
        assert(renders.drop_last() =~= prepared_renders(prev));
        assert(renders.last() == last_render);
        assert(joined == joined_body(prev) + "\n"@ + last_render);
        if i < cs.len() - 1 {
            lemma_candidates_in_order(prev, i);
            lemma_render_position_eq(prev, cs, i);
            if i > 0 {
                lemma_render_position_eq(prev, cs, i - 1);
            }
            lemma_occurs_in_prefix(
                joined_body(prev),
                "\n"@ + last_render,
                rendered_prepared(prev[i]),
                render_position(prev, i),
            );
            assert(joined_body(prev) + ("\n"@ + last_render) =~= joined);
        } else {
            lemma_joined_body_len(prev);
            lemma_render_position_eq(prev, cs, cs.len() - 1);
            let pos = render_position(cs, i);
            assert(pos == joined_body(prev).len() + 1);
            assert(joined.subrange(pos, pos + last_render.len()) =~= last_render);
        }
    }
}

/// Body completeness: a prepared function candidate has exactly one body —
/// its own when the declaration had one, the synthesized placeholder when
/// it had none; never both, never neither.
pub proof fn lemma_body_completeness(orig: AssocItemCandidate, new: AssocItemCandidate)
    requires
        prepared_from(orig, new),
        orig.fragment is Method,
    ensures
        new.fragment is Method,
        new.fragment->Method_body is Some,
        orig.fragment->Method_body matches Some(b) ==> new.fragment->Method_body == Some(b),
        orig.fragment->Method_body is None ==> new.fragment->Method_body->Some_0@
            == placeholder_body_text(),
{
}

/// No-generics case: for a declaration without a generic-parameter clause
/// the generated text holds no angle clause at all — it is exactly the
/// separator lines, the `cfg` attributes, `impl`, the optional trait
/// header, the bare type name and the braced body.
pub proof fn lemma_no_generics_header(adt: AdtData, trait_text: Option<Seq<char>>, code: Seq<char>)
    requires
        adt.generic_params is None,
    ensures
        impl_text_spec(adt, trait_text, code) == "\n\n"@ + cfg_attr_block(adt.attrs@) + "impl"@
            + " "@ + (match trait_text {
            Some(t) => t + " for "@,
            None => Seq::<char>::empty(),
        }) + adt.name@ + (match adt.where_clause {
            Some(w) => "\n"@ + w@ + "\n{\n"@ + code + "\n}"@,
            None => " {\n"@ + code + "\n}"@,
        }),
{
    assert(impl_text_spec(adt, trait_text, code) =~= "\n\n"@ + cfg_attr_block(adt.attrs@) + "impl"@
        + " "@ + (match trait_text {
        Some(t) => t + " for "@,
        None => Seq::<char>::empty(),
    }) + adt.name@ + (match adt.where_clause {
        Some(w) => "\n"@ + w@ + "\n{\n"@ + code + "\n}"@,
        None => " {\n"@ + code + "\n}"@,
    }));
}

/// The subsequence of `cfg` attributes, in declaration order.
pub open spec fn cfg_attrs(attrs: Seq<AttrData>) -> Seq<AttrData>
    decreases attrs.len(),
{
    if attrs.len() == 0 {
        Seq::empty()
    } else {
        cfg_attrs(attrs.drop_last()) + (if is_cfg_attr(attrs.last()) {
            seq![attrs.last()]
        } else {
            Seq::empty()
        })
    }
}

/// The texts of a run of attributes.
pub open spec fn attr_texts(attrs: Seq<AttrData>) -> Seq<Seq<char>>
    decreases attrs.len(),
{
    if attrs.len() == 0 {
        Seq::empty()
    } else {
        attr_texts(attrs.drop_last()) + seq![attrs.last().text@]
    }
}

/// Cfg propagation: the attribute block copied onto a generated impl header
/// is exactly the declaration's `cfg` attributes, in original order, each
/// on its own line — nothing else is copied.
pub proof fn lemma_cfg_propagation(attrs: Seq<AttrData>)
    ensures
        cfg_attr_block(attrs) == concat_each_with(attr_texts(cfg_attrs(attrs)), "\n"@),
    decreases attrs.len(),
{
    if attrs.len() > 0 {
        lemma_cfg_propagation(attrs.drop_last());
        let prev_cfg = cfg_attrs(attrs.drop_last());
        if is_cfg_attr(attrs.last()) {
            let whole = prev_cfg + seq![attrs.last()];
            assert(cfg_attrs(attrs) == whole);
            assert(whole.drop_last() =~= prev_cfg);
            assert(whole.last() == attrs.last());
            assert(attr_texts(whole) == attr_texts(prev_cfg) + seq![attrs.last().text@]);
            let texts = attr_texts(prev_cfg) + seq![attrs.last().text@];
            assert(texts.drop_last() =~= attr_texts(prev_cfg));
            assert(texts.last() == attrs.last().text@);
            assert(concat_each_with(texts, "\n"@) == concat_each_with(attr_texts(prev_cfg), "\n"@)
                + attrs.last().text@ + "\n"@);
            assert(cfg_attr_block(attrs) == cfg_attr_block(attrs.drop_last()) + (attrs.last().text@
                + "\n"@));
            assert(cfg_attr_block(attrs) =~= concat_each_with(texts, "\n"@));
        } else {
            assert(cfg_attrs(attrs) =~= prev_cfg);
            assert(cfg_attr_block(attrs) =~= cfg_attr_block(attrs.drop_last()));
        }
    }
}

/// A generated impl text carries the staged body verbatim, right before the
/// closing brace: with the conflict-abort contract of the driver this pins
/// where the candidates end up on the create path.
pub proof fn lemma_impl_text_contains_code(
    adt: AdtData,
    trait_text: Option<Seq<char>>,
    code: Seq<char>,
)
    ensures
        occurs_at(
            impl_text_spec(adt, trait_text, code),
            code,
            impl_text_spec(adt, trait_text, code).len() - code.len() - 2,
        ),
{
    reveal_strlit("\n}");
    let text = impl_text_spec(adt, trait_text, code);
    let pos = text.len() - code.len() - 2;
    match adt.where_clause {
        Some(w) => {
            assert(text.subrange(pos, pos + code.len()) =~= code);
        },
        None => {
            assert(text.subrange(pos, pos + code.len()) =~= code);
        },
    }
}

} // verus!
