//! Plain-value snapshots of the syntactic and semantic facts the synthesis
//! engine reads: declarations are carried as their source texts and token
//! offsets, and resolved type identities as opaque numbers.

use vstd::prelude::*;

verus! {

/// An attribute attached to a declaration.
pub struct AttrData {
    /// Full source text of the attribute, e.g. `#[cfg(unix)]`.
    pub text: String,
    /// The attribute's path text, e.g. `test_case` or `tokio::test`,
    /// when the attribute has a path.
    pub path: Option<String>,
    /// When the attribute is a simple call `name(args)`, the `name`.
    pub simple_call_name: Option<String>,
}

/// A lifetime parameter of a generic-parameter clause.
pub struct LifetimeParamData {
    /// Verbatim declaration text, e.g. `'a` or `'a: 'b`.
    pub text: String,
    /// The lifetime itself, e.g. `'a`, when present.
    pub lifetime: Option<String>,
}

/// A type parameter of a generic-parameter clause.
pub struct TypeParamData {
    /// The parameter's name, e.g. `T`, when present.
    pub name: Option<String>,
    /// The bound-list text following a colon, e.g. `Clone + Debug`,
    /// when a colon is present.
    pub bounds: Option<String>,
}

/// A const parameter of a generic-parameter clause.
pub struct ConstParamData {
    /// Verbatim declaration text, e.g. `const N: usize`.
    pub text: String,
    /// The parameter's name, e.g. `N`, when present.
    pub name: Option<String>,
}

/// A type declaration's generic-parameter clause, split by kind.
/// Declaration order within each kind is kept.
pub struct GenericParamListData {
    pub lifetimes: Vec<LifetimeParamData>,
    pub type_params: Vec<TypeParamData>,
    pub const_params: Vec<ConstParamData>,
}

/// A target type declaration (struct, enum or union), as the engine reads it.
pub struct AdtData {
    /// The declared name, e.g. `Pair`.
    pub name: String,
    /// The generic-parameter clause; `None` when the declaration has none.
    pub generic_params: Option<GenericParamListData>,
    /// Verbatim where-clause text, when present.
    pub where_clause: Option<String>,
    /// All attributes on the declaration, in source order.
    pub attrs: Vec<AttrData>,
    /// End offset of the declaration's text range in the document.
    pub end_offset: usize,
    /// The resolved type identity, or `None` when semantic resolution fails.
    pub semantic_id: Option<u64>,
}

/// One member already declared inside an impl block's item list.
pub struct ImplMember {
    /// Whether the member is a function.
    pub is_fn: bool,
    /// The member's declared name, when present.
    pub name: Option<String>,
}

/// The item list of an impl block, between its braces.
pub struct AssocItemListData {
    /// The members, in source order.
    pub members: Vec<ImplMember>,
    /// End offset of the `{` token, when that token exists.
    pub lcurly_end: Option<usize>,
    /// End offset of the token immediately preceding `}`, when both exist.
    pub rcurly_prev_end: Option<usize>,
}

/// What semantic resolution says about an impl block.
pub struct ImplSemantics {
    /// Identity of the self type's declaration, when the self type is an ADT.
    pub self_ty_adt: Option<u64>,
    /// Whether the impl declares a trait.
    pub is_trait_impl: bool,
}

/// One impl block found among a module's descendants.
pub struct ImplData {
    /// The resolver's view of the impl; `None` when resolution fails.
    pub semantics: Option<ImplSemantics>,
    /// The impl's item list; `None` when the block has no braces.
    pub item_list: Option<AssocItemListData>,
}

/// The enclosing scope searched for reusable impl blocks.
pub struct ModuleData {
    /// The impl blocks among the scope's descendants, in source order.
    pub impls: Vec<ImplData>,
}

/// The syntactic fragment of one associated item, split at the joints the
/// engine rewrites.
pub enum AssocItemFragment {
    /// A function: its header text and, when the declaration has one, its
    /// block-body text.
    Method { signature: String, body: Option<String> },
    /// A type alias: the text up to a possible colon, the bound-list text
    /// after the colon when present, and the rest (`;` or ` = ...;`).
    TypeAlias { head: String, bounds: Option<String>, tail: String },
    /// A constant, carried verbatim.
    ConstItem { text: String },
}

/// A trait's associated item as a resolved, source-backed declaration.
pub struct AssocItemDecl {
    /// The declared name, when present.
    pub name: Option<String>,
    /// The attribute and documentation lines attached to the declaration.
    pub attrs: Vec<String>,
    /// The declaration's syntactic fragment.
    pub fragment: AssocItemFragment,
}

/// One entry of a trait's associated-item enumeration; the source-backed
/// declaration may be missing (macro-generated items, external sources).
pub struct AssocItemSource {
    pub source: Option<AssocItemDecl>,
}

/// A selected associated item the engine owns and transforms: its name is
/// known, and its fragment is a mutable copy of the declaration's.
pub struct AssocItemCandidate {
    pub name: String,
    pub attrs: Vec<String>,
    pub fragment: AssocItemFragment,
}

} // verus!
