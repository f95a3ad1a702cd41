//! Reconstruction of an impl header from a type declaration: the
//! generic-parameter clause in declaration form, the usage form of the
//! type's own reference (names only), the copied `cfg` attributes, and the
//! full `impl <generics> [<Trait> for] <Type><generics-usage> [where] { .. }`
//! text.

use vstd::prelude::*;
use vstd::string::*;
use crate::model::{AdtData, AttrData, ConstParamData, GenericParamListData, LifetimeParamData,
    TypeParamData};
use crate::strutil::{join_seqs, join_strings, str_eq, str_views};

verus! {

/// A type parameter rendered for the header: its name, then, when a
/// bound list is present, a colon, the bounds and a closing space.
pub open spec fn rendered_type_param(tp: TypeParamData) -> Seq<char> {
    (match tp.name {
        Some(n) => n@,
        None => Seq::empty(),
    }) + (match tp.bounds {
        Some(b) => ": "@ + b@ + " "@,
        None => Seq::empty(),
    })
}

/// The lifetimes' verbatim texts, in order.
pub open spec fn header_lifetimes(ls: Seq<LifetimeParamData>) -> Seq<Seq<char>>
    decreases ls.len(),
{
    if ls.len() == 0 {
        Seq::empty()
    } else {
        header_lifetimes(ls.drop_last()) + seq![ls.last().text@]
    }
}

/// The rendered type parameters, in order.
pub open spec fn header_type_params(ts: Seq<TypeParamData>) -> Seq<Seq<char>>
    decreases ts.len(),
{
    if ts.len() == 0 {
        Seq::empty()
    } else {
        header_type_params(ts.drop_last()) + seq![rendered_type_param(ts.last())]
    }
}

/// The const parameters' verbatim texts, in order.
pub open spec fn header_const_params(cs: Seq<ConstParamData>) -> Seq<Seq<char>>
    decreases cs.len(),
{
    if cs.len() == 0 {
        Seq::empty()
    } else {
        header_const_params(cs.drop_last()) + seq![cs.last().text@]
    }
}

/// The pieces of the declaration-form clause: lifetimes verbatim, then
/// rendered type parameters, then const parameters verbatim.
pub open spec fn header_parts(g: GenericParamListData) -> Seq<Seq<char>> {
    header_lifetimes(g.lifetimes@) + header_type_params(g.type_params@) + header_const_params(
        g.const_params@,
    )
}

/// Zero or one pieces: the view of a present name, nothing otherwise.
pub open spec fn opt_name_part(o: Option<String>) -> Seq<Seq<char>> {
    match o {
        Some(n) => seq![n@],
        None => Seq::empty(),
    }
}

/// The lifetimes that have a name, in order.
pub open spec fn usage_lifetimes(ls: Seq<LifetimeParamData>) -> Seq<Seq<char>>
    decreases ls.len(),
{
    if ls.len() == 0 {
        Seq::empty()
    } else {
        usage_lifetimes(ls.drop_last()) + opt_name_part(ls.last().lifetime)
    }
}

/// The type-parameter names that are present, in order.
pub open spec fn usage_type_params(ts: Seq<TypeParamData>) -> Seq<Seq<char>>
    decreases ts.len(),
{
    if ts.len() == 0 {
        Seq::empty()
    } else {
        usage_type_params(ts.drop_last()) + opt_name_part(ts.last().name)
    }
}

/// The const-parameter names that are present, in order.
pub open spec fn usage_const_params(cs: Seq<ConstParamData>) -> Seq<Seq<char>>
    decreases cs.len(),
{
    if cs.len() == 0 {
        Seq::empty()
    } else {
        usage_const_params(cs.drop_last()) + opt_name_part(cs.last().name)
    }
}

/// The pieces of the usage-form clause: lifetimes, then type-parameter
/// names, then const-parameter names, bounds dropped.
pub open spec fn usage_parts(g: GenericParamListData) -> Seq<Seq<char>> {
    usage_lifetimes(g.lifetimes@) + usage_type_params(g.type_params@) + usage_const_params(
        g.const_params@,
    )
}

/// The pieces joined by `, ` inside angle brackets.
pub open spec fn angle_clause(parts: Seq<Seq<char>>) -> Seq<char> {
    "<"@ + join_seqs(parts, ", "@) + ">"@
}

/// Whether an attribute is a conditional-compilation attribute, i.e. a
/// simple call whose name is `cfg`.
pub open spec fn is_cfg_attr(a: AttrData) -> bool {
    match a.simple_call_name {
        Some(n) => n@ == "cfg"@,
        None => false,
    }
}

/// The `cfg` attributes among `attrs`, each followed by a newline, in the
/// order they were declared; nothing else is copied.
pub open spec fn cfg_attr_block(attrs: Seq<AttrData>) -> Seq<char>
    decreases attrs.len(),
{
    if attrs.len() == 0 {
        Seq::empty()
    } else {
        cfg_attr_block(attrs.drop_last()) + (if is_cfg_attr(attrs.last()) {
            attrs.last().text@ + "\n"@
        } else {
            Seq::empty()
        })
    }
}

/// The view of an optional borrowed text.
pub open spec fn opt_str_view(o: Option<&str>) -> Option<Seq<char>> {
    match o {
        Some(t) => Some(t@),
        None => None,
    }
}

/// The full generated text: two separating blank lines, the copied `cfg`
/// attributes, `impl`, the declaration-form generic clause (omitted when
/// the declaration has no clause), optionally `<Trait> for `, the type name
/// with its usage-form clause, then either the verbatim where-clause on its
/// own line before the braced body, or the braced body after one space.
pub open spec fn impl_text_spec(adt: AdtData, trait_text: Option<Seq<char>>, code: Seq<char>) -> Seq<
    char,
> {
    "\n\n"@ + cfg_attr_block(adt.attrs@) + "impl"@ + (match adt.generic_params {
        Some(g) => angle_clause(header_parts(g)),
        None => Seq::empty(),
    }) + " "@ + (match trait_text {
        Some(t) => t + " for "@,
        None => Seq::empty(),
    }) + adt.name@ + (match adt.generic_params {
        Some(g) => angle_clause(usage_parts(g)),
        None => Seq::empty(),
    }) + (match adt.where_clause {
        Some(w) => "\n"@ + w@ + "\n{\n"@ + code + "\n}"@,
        None => " {\n"@ + code + "\n}"@,
    })
}

/// Renders one type parameter for the declaration-form clause.
fn render_type_param(tp: &TypeParamData) -> (r: String)
    ensures
        r@ == rendered_type_param(*tp),
{
    let mut r = String::new();
    match &tp.name {
        Some(n) => r.append(n.as_str()),
        None => {},
    }
    match &tp.bounds {
        Some(b) => {
            r.append(": ");
            r.append(b.as_str());
            r.append(" ");
        },
        None => {},
    }
    proof {
        assert(r@ =~= rendered_type_param(*tp));
    }
    r
}

/// Builds the declaration-form angle-bracket clause of a generic-parameter
/// list.
pub fn header_clause_text(g: &GenericParamListData) -> (r: String)
    ensures
        r@ == angle_clause(header_parts(*g)),
{
    let mut parts: Vec<String> = Vec::new();
    let mut i: usize = 0;
    while i < g.lifetimes.len()
        invariant
            i <= g.lifetimes@.len(),
            str_views(parts@) == header_lifetimes(g.lifetimes@.take(i as int)),
        decreases g.lifetimes@.len() - i,
    {
        proof {
            assert(g.lifetimes@.take(i + 1).drop_last() =~= g.lifetimes@.take(i as int));
            assert(g.lifetimes@.take(i + 1).last() == g.lifetimes@[i as int]);
        }
        parts.push(g.lifetimes[i].text.clone());
        proof {
            assert(str_views(parts@) =~= header_lifetimes(g.lifetimes@.take(i + 1)));
        }
        i += 1;
    }
    let ghost lt_parts = header_lifetimes(g.lifetimes@);
    proof {
        assert(g.lifetimes@.take(g.lifetimes@.len() as int) =~= g.lifetimes@);
        assert(lt_parts + header_type_params(g.type_params@.take(0)) =~= lt_parts);
    }
    let mut j: usize = 0;
    while j < g.type_params.len()
        invariant
            j <= g.type_params@.len(),
            str_views(parts@) == lt_parts + header_type_params(g.type_params@.take(j as int)),
        decreases g.type_params@.len() - j,
    {
        proof {
            assert(g.type_params@.take(j + 1).drop_last() =~= g.type_params@.take(j as int));
            assert(g.type_params@.take(j + 1).last() == g.type_params@[j as int]);
        }
        let ghost prev_views = str_views(parts@);
        let rendered = render_type_param(&g.type_params[j]);
        let ghost rv = rendered@;
        parts.push(rendered);
        proof {
            assert(str_views(parts@) =~= prev_views.push(rv));
            assert(lt_parts + header_type_params(g.type_params@.take(j + 1)) =~= prev_views.push(
                rv,
            ));
        }
        j += 1;
    }
    let ghost tp_parts = header_type_params(g.type_params@);
    proof {
        assert(g.type_params@.take(g.type_params@.len() as int) =~= g.type_params@);
        assert(lt_parts + tp_parts + header_const_params(g.const_params@.take(0)) =~= lt_parts
            + tp_parts);
    }
    let mut k: usize = 0;
    while k < g.const_params.len()
        invariant
            k <= g.const_params@.len(),
            str_views(parts@) == lt_parts + tp_parts + header_const_params(
                g.const_params@.take(k as int),
            ),
        decreases g.const_params@.len() - k,
    {
        proof {
            assert(g.const_params@.take(k + 1).drop_last() =~= g.const_params@.take(k as int));
            assert(g.const_params@.take(k + 1).last() == g.const_params@[k as int]);
        }
        let ghost prev_views = str_views(parts@);
        let text = g.const_params[k].text.clone();
        let ghost tv = text@;
        parts.push(text);
        proof {
            assert(str_views(parts@) =~= prev_views.push(tv));
            assert(lt_parts + tp_parts + header_const_params(g.const_params@.take(k + 1))
                =~= prev_views.push(tv));
        }
        k += 1;
    }
    proof {
        assert(g.const_params@.take(g.const_params@.len() as int) =~= g.const_params@);
        assert(str_views(parts@) == header_parts(*g));
    }
    let joined = join_strings(&parts, ", ");
    let mut r = String::new();
    r.append("<");
    r.append(joined.as_str());
    r.append(">");
    proof {
        assert(r@ =~= angle_clause(header_parts(*g)));
    }
    r
}

/// Builds the usage-form angle-bracket clause: names only, bounds dropped,
/// parameters without a name skipped.
pub fn usage_clause_text(g: &GenericParamListData) -> (r: String)
    ensures
        r@ == angle_clause(usage_parts(*g)),
{
    let mut parts: Vec<String> = Vec::new();
    let mut i: usize = 0;
    while i < g.lifetimes.len()
        invariant
            i <= g.lifetimes@.len(),
            str_views(parts@) == usage_lifetimes(g.lifetimes@.take(i as int)),
        decreases g.lifetimes@.len() - i,
    {
        proof {
            assert(g.lifetimes@.take(i + 1).drop_last() =~= g.lifetimes@.take(i as int));
            assert(g.lifetimes@.take(i + 1).last() == g.lifetimes@[i as int]);
        }
        match &g.lifetimes[i].lifetime {
            Some(n) => {
                parts.push(n.clone());
                proof {
                    assert(str_views(parts@) =~= usage_lifetimes(g.lifetimes@.take(i + 1)));
                }
            },
            None => {
                proof {
                    assert(str_views(parts@) =~= usage_lifetimes(g.lifetimes@.take(i + 1)));
                }
            },
        }
        i += 1;
    }
    let ghost lt_parts = usage_lifetimes(g.lifetimes@);
    proof {
        assert(g.lifetimes@.take(g.lifetimes@.len() as int) =~= g.lifetimes@);
        assert(lt_parts + usage_type_params(g.type_params@.take(0)) =~= lt_parts);
    }
    let mut j: usize = 0;
    while j < g.type_params.len()
        invariant
            j <= g.type_params@.len(),
            str_views(parts@) == lt_parts + usage_type_params(g.type_params@.take(j as int)),
        decreases g.type_params@.len() - j,
    {
        proof {
            assert(g.type_params@.take(j + 1).drop_last() =~= g.type_params@.take(j as int));
            assert(g.type_params@.take(j + 1).last() == g.type_params@[j as int]);
        }
        let ghost prev_views = str_views(parts@);
        match &g.type_params[j].name {
            Some(n) => {
                let name = n.clone();
                let ghost nv = name@;
                parts.push(name);
                proof {
                    assert(str_views(parts@) =~= prev_views.push(nv));
                    assert(lt_parts + usage_type_params(g.type_params@.take(j + 1))
                        =~= prev_views.push(nv));
                }
            },
            None => {
                proof {
                    assert(lt_parts + usage_type_params(g.type_params@.take(j + 1)) =~= prev_views);
                }
            },
        }
        j += 1;
    }
    let ghost tp_parts = usage_type_params(g.type_params@);
    proof {
        assert(g.type_params@.take(g.type_params@.len() as int) =~= g.type_params@);
        assert(lt_parts + tp_parts + usage_const_params(g.const_params@.take(0)) =~= lt_parts
            + tp_parts);
    }
    let mut k: usize = 0;
    while k < g.const_params.len()
        invariant
            k <= g.const_params@.len(),
            str_views(parts@) == lt_parts + tp_parts + usage_const_params(
                g.const_params@.take(k as int),
            ),
        decreases g.const_params@.len() - k,
    {
        proof {
            assert(g.const_params@.take(k + 1).drop_last() =~= g.const_params@.take(k as int));
            assert(g.const_params@.take(k + 1).last() == g.const_params@[k as int]);
        }
        let ghost prev_views = str_views(parts@);
        match &g.const_params[k].name {
            Some(n) => {
                let name = n.clone();
                let ghost nv = name@;
                parts.push(name);
                proof {
                    assert(str_views(parts@) =~= prev_views.push(nv));
                    assert(lt_parts + tp_parts + usage_const_params(g.const_params@.take(k + 1))
                        =~= prev_views.push(nv));
                }
            },
            None => {
                proof {
                    assert(lt_parts + tp_parts + usage_const_params(g.const_params@.take(k + 1))
                        =~= prev_views);
                }
            },
        }
        k += 1;
    }
    proof {
        assert(g.const_params@.take(g.const_params@.len() as int) =~= g.const_params@);
        assert(str_views(parts@) == usage_parts(*g));
    }
    let joined = join_strings(&parts, ", ");
    let mut r = String::new();
    r.append("<");
    r.append(joined.as_str());
    r.append(">");
    proof {
        assert(r@ =~= angle_clause(usage_parts(*g)));
    }
    r
}

/// Copies the declaration's `cfg` attributes, each on its own line, in
/// declaration order.
pub fn cfg_attr_text(attrs: &Vec<AttrData>) -> (r: String)
    ensures
        r@ == cfg_attr_block(attrs@),
{
    let mut r = String::new();
    let mut i: usize = 0;
    while i < attrs.len()
        invariant
            i <= attrs@.len(),
            r@ == cfg_attr_block(attrs@.take(i as int)),
        decreases attrs@.len() - i,
    {
        proof {
            assert(attrs@.take(i + 1).drop_last() =~= attrs@.take(i as int));
            assert(attrs@.take(i + 1).last() == attrs@[i as int]);
        }
        let is_cfg = match &attrs[i].simple_call_name {
            Some(n) => str_eq(n.as_str(), "cfg"),
            None => false,
        };
        if is_cfg {
            r.append(attrs[i].text.as_str());
            r.append("\n");
        }
        proof {
            assert(r@ =~= cfg_attr_block(attrs@.take(i + 1)));
        }
        i += 1;
    }
    proof {
        assert(attrs@.take(attrs@.len() as int) =~= attrs@);
    }
    r
}

/// Generates the full surrounding impl text for a type declaration:
/// optionally a trait header, the reconstructed generic clauses, the copied
/// `cfg` attributes, and `code` as the block's body.
pub fn generate_impl_text_inner(adt: &AdtData, trait_text: Option<&str>, code: &str) -> (r: String)
    ensures
        r@ == impl_text_spec(*adt, opt_str_view(trait_text), code@),
{
    let mut buf = String::new();
    buf.append("\n\n");
    let cfg = cfg_attr_text(&adt.attrs);
    buf.append(cfg.as_str());
    buf.append("impl");
    match &adt.generic_params {
        Some(g) => {
            let clause = header_clause_text(g);
            buf.append(clause.as_str());
        },
        None => {},
    }
    buf.append(" ");
    match trait_text {
        Some(t) => {
            buf.append(t);
            buf.append(" for ");
        },
        None => {},
    }
    buf.append(adt.name.as_str());
    match &adt.generic_params {
        Some(g) => {
            let clause = usage_clause_text(g);
            buf.append(clause.as_str());
        },
        None => {},
    }
    match &adt.where_clause {
        Some(w) => {
            buf.append("\n");
            buf.append(w.as_str());
            buf.append("\n{\n");
            buf.append(code);
            buf.append("\n}");
        },
        None => {
            buf.append(" {\n");
            buf.append(code);
            buf.append("\n}");
        },
    }
    proof {
        assert(buf@ =~= impl_text_spec(*adt, opt_str_view(trait_text), code@));
    }
    buf
}

/// Generates the surrounding `impl Type { <code> }` text, generic clauses
/// included.
pub fn generate_impl_text(adt: &AdtData, code: &str) -> (r: String)
    ensures
        r@ == impl_text_spec(*adt, None, code@),
{
    generate_impl_text_inner(adt, None, code)
}

/// Generates the surrounding `impl <trait> for Type { <code> }` text,
/// generic clauses included.
pub fn generate_trait_impl_text(adt: &AdtData, trait_text: &str, code: &str) -> (r: String)
    ensures
        r@ == impl_text_spec(*adt, Some(trait_text@), code@),
{
    generate_impl_text_inner(adt, Some(trait_text), code)
}

} // verus!
