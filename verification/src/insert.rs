//! Resolution of the insertion point: the byte offset and the text to
//! splice into the document, both when a located impl block is extended and
//! when a new one is generated after the type declaration.

use vstd::prelude::*;
use vstd::string::*;
use crate::model::{AdtData, ImplData};
use crate::generate::{generate_impl_text, impl_text_spec};

verus! {

/// A staged edit: insert `text` at `offset`. Nothing is applied here; an
/// edit-commit collaborator of the host owns the document.
pub struct InsertionPoint {
    pub offset: usize,
    pub text: String,
}

/// Where appending inside the impl block starts: the end of its item list's
/// `{` token, when the block has one.
pub open spec fn impl_block_start(i: ImplData) -> Option<usize> {
    match i.item_list {
        Some(l) => l.lcurly_end,
        None => None,
    }
}

/// Where appending inside the impl block ends: the end of the token
/// immediately preceding its `}`, when both exist.
pub open spec fn impl_block_end(i: ImplData) -> Option<usize> {
    match i.item_list {
        Some(l) => l.rcurly_prev_end,
        None => None,
    }
}

/// Finds the offset just inside the start of an impl block's item list:
/// the end of its `{` token, when the block has one.
pub fn find_impl_block_start(impl_def: &ImplData) -> (r: Option<usize>)
    ensures
        r == impl_block_start(*impl_def),
{
    match &impl_def.item_list {
        Some(l) => l.lcurly_end,
        None => None,
    }
}

/// Finds the offset just inside the end of an impl block's item list: the
/// end of the token immediately preceding its `}`, when both exist. New
/// text spliced there lands before the closing brace, and whatever trivia
/// already closes the block is preserved as-is.
pub fn find_impl_block_end(impl_def: &ImplData) -> (r: Option<usize>)
    ensures
        r == impl_block_end(*impl_def),
{
    match &impl_def.item_list {
        Some(l) => l.rcurly_prev_end,
        None => None,
    }
}

/// The staged edit that adds one member text to a type: a leading newline
/// and the member's text — nothing else — placed before the closing brace
/// of the given impl block when that block is well formed, and otherwise
/// wrapped in a freshly generated inherent impl inserted right after the
/// type declaration.
pub open spec fn add_method_insertion(adt: AdtData, impl_def: Option<ImplData>, method: Seq<
    char,
>) -> (int, Seq<char>) {
    match impl_def {
        Some(d) => {
            let buf = "\n"@ + method;
            match impl_block_end(d) {
                Some(e) => (e as int, buf),
                None => (adt.end_offset as int, impl_text_spec(adt, None, buf)),
            }
        },
        None => (adt.end_offset as int, impl_text_spec(adt, None, method)),
    }
}

/// The view of an optional borrowed impl block.
pub open spec fn opt_impl_view(o: Option<&ImplData>) -> Option<ImplData> {
    match o {
        Some(d) => Some(*d),
        None => None,
    }
}

/// Stages the edit that adds one member to a type, reusing the given impl
/// block when it is well formed and generating a surrounding inherent impl
/// otherwise.
pub fn add_method_to_adt(adt: &AdtData, impl_def: Option<&ImplData>, method: &str) -> (r:
    InsertionPoint)
    ensures
        r.offset as int == add_method_insertion(*adt, opt_impl_view(impl_def), method@).0,
        r.text@ == add_method_insertion(*adt, opt_impl_view(impl_def), method@).1,
{
    let mut buf = String::new();
    if impl_def.is_some() {
        buf.append("\n");
    }
    buf.append(method);
    match impl_def {
        Some(d) => {
            let end = find_impl_block_end(d);
            proof {
                assert(buf@ =~= "\n"@ + method@);
            }
            match end {
                Some(e) => InsertionPoint { offset: e, text: buf },
                None => InsertionPoint {
                    offset: adt.end_offset,
                    text: generate_impl_text(adt, buf.as_str()),
                },
            }
        },
        None => {
            proof {
                assert(buf@ =~= method@);
            }
            InsertionPoint { offset: adt.end_offset, text: generate_impl_text(adt, buf.as_str()) }
        },
    }
}

} // verus!
