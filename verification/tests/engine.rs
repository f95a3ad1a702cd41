use ide_assists::generate::{cfg_attr_text, generate_impl_text, generate_trait_impl_text,
    header_clause_text, usage_clause_text};
use ide_assists::insert::{add_method_to_adt, find_impl_block_end, find_impl_block_start};
use ide_assists::locate::{get_methods, has_fn, locate_inherent_impl, find_struct_impl,
    ImplSearchOutcome};
use ide_assists::model::{AdtData, AssocItemCandidate, AssocItemDecl, AssocItemFragment,
    AssocItemListData, AssocItemSource, AttrData, ConstParamData, GenericParamListData, ImplData,
    ImplMember, ImplSemantics, LifetimeParamData, ModuleData, TypeParamData};
use ide_assists::select::{filter_assoc_items, DefaultMethods};
use ide_assists::special::{test_related_attribute, ty_ctor, useless_type_special_case};
use ide_assists::strutil::{join_strings, str_ends_with, str_eq, str_eq_ignore_ascii_case,
    str_starts_with};
use ide_assists::stub::{add_trait_assoc_items_to_impl, prepare_candidate, render_assoc_item};
use ide_assists::synth::{synthesize_trait_impl, SynthesisOutcome};

fn s(x: &str) -> String {
    x.to_string()
}

fn no_attr_adt(name: &str, generics: Option<GenericParamListData>) -> AdtData {
    AdtData {
        name: s(name),
        generic_params: generics,
        where_clause: None,
        attrs: Vec::new(),
        end_offset: 100,
        semantic_id: Some(7),
    }
}

fn pair_generics() -> GenericParamListData {
    GenericParamListData {
        lifetimes: Vec::new(),
        type_params: vec![TypeParamData { name: Some(s("T")), bounds: Some(s("Clone")) }],
        const_params: Vec::new(),
    }
}

fn fn_candidate(name: &str, signature: &str, body: Option<&str>) -> AssocItemCandidate {
    AssocItemCandidate {
        name: s(name),
        attrs: Vec::new(),
        fragment: AssocItemFragment::Method {
            signature: s(signature),
            body: body.map(s),
        },
    }
}

fn foo_trait_items() -> Vec<AssocItemSource> {
    vec![
        AssocItemSource {
            source: Some(AssocItemDecl {
                name: Some(s("foo")),
                attrs: Vec::new(),
                fragment: AssocItemFragment::Method { signature: s("fn foo(&self)"), body: None },
            }),
        },
        AssocItemSource {
            source: Some(AssocItemDecl {
                name: Some(s("Bar")),
                attrs: Vec::new(),
                fragment: AssocItemFragment::TypeAlias {
                    head: s("type Bar"),
                    bounds: None,
                    tail: s(";"),
                },
            }),
        },
        AssocItemSource {
            source: Some(AssocItemDecl {
                name: Some(s("BAZ")),
                attrs: Vec::new(),
                fragment: AssocItemFragment::ConstItem { text: s("const BAZ: i32;") },
            }),
        },
    ]
}

fn inherent_impl(members: Vec<ImplMember>) -> ImplData {
    ImplData {
        semantics: Some(ImplSemantics { self_ty_adt: Some(7), is_trait_impl: false }),
        item_list: Some(AssocItemListData {
            members,
            lcurly_end: Some(20),
            rcurly_prev_end: Some(55),
        }),
    }
}

#[test]
fn header_round_trip() {
    let g = GenericParamListData {
        lifetimes: vec![LifetimeParamData { text: s("'a"), lifetime: Some(s("'a")) }],
        type_params: vec![TypeParamData { name: Some(s("T")), bounds: Some(s("Clone")) }],
        const_params: vec![ConstParamData { text: s("const N: usize"), name: Some(s("N")) }],
    };
    assert_eq!(header_clause_text(&g), "<'a, T: Clone , const N: usize>");
    assert_eq!(usage_clause_text(&g), "<'a, T, N>");
}

#[test]
fn header_unnamed_params_skipped_in_usage() {
    let g = GenericParamListData {
        lifetimes: vec![LifetimeParamData { text: s("'a"), lifetime: None }],
        type_params: vec![TypeParamData { name: Some(s("T")), bounds: None }],
        const_params: vec![ConstParamData { text: s("const N: usize"), name: None }],
    };
    assert_eq!(header_clause_text(&g), "<'a, T, const N: usize>");
    assert_eq!(usage_clause_text(&g), "<T>");
}

#[test]
fn no_generics_header_has_no_angle_clause() {
    let adt = no_attr_adt("S", None);
    let text = generate_impl_text(&adt, "CODE");
    assert_eq!(text, "\n\nimpl S {\nCODE\n}");
    assert!(!text.contains('<'));
}

#[test]
fn empty_generic_list_yields_empty_angle_clause() {
    let g = GenericParamListData {
        lifetimes: Vec::new(),
        type_params: Vec::new(),
        const_params: Vec::new(),
    };
    let adt = no_attr_adt("S", Some(g));
    assert_eq!(generate_impl_text(&adt, "CODE"), "\n\nimpl<> S<> {\nCODE\n}");
}

#[test]
fn cfg_attrs_copied_exactly() {
    let mut adt = no_attr_adt("S", None);
    adt.attrs = vec![
        AttrData {
            text: s("#[cfg(unix)]"),
            path: Some(s("cfg")),
            simple_call_name: Some(s("cfg")),
        },
        AttrData {
            text: s("#[derive(Debug)]"),
            path: Some(s("derive")),
            simple_call_name: Some(s("derive")),
        },
    ];
    assert_eq!(cfg_attr_text(&adt.attrs), "#[cfg(unix)]\n");
    let text = generate_impl_text(&adt, "CODE");
    assert_eq!(text, "\n\n#[cfg(unix)]\nimpl S {\nCODE\n}");
}

#[test]
fn where_clause_is_kept_verbatim() {
    let mut adt = no_attr_adt("S", None);
    adt.where_clause = Some(s("where T: Clone"));
    assert_eq!(
        generate_trait_impl_text(&adt, "Foo", "CODE"),
        "\n\nimpl Foo for S\nwhere T: Clone\n{\nCODE\n}"
    );
}

#[test]
fn full_header_combines_cfg_generics_trait_and_where_clause() {
    let adt = AdtData {
        name: s("Pair"),
        generic_params: Some(GenericParamListData {
            lifetimes: vec![LifetimeParamData { text: s("'a"), lifetime: Some(s("'a")) }],
            type_params: vec![TypeParamData { name: Some(s("T")), bounds: None }],
            const_params: Vec::new(),
        }),
        where_clause: Some(s("where T: Clone")),
        attrs: vec![AttrData {
            text: s("#[cfg(unix)]"),
            path: Some(s("cfg")),
            simple_call_name: Some(s("cfg")),
        }],
        end_offset: 10,
        semantic_id: Some(1),
    };
    assert_eq!(
        generate_trait_impl_text(&adt, "Foo", "CODE"),
        "\n\n#[cfg(unix)]\nimpl<'a, T> Foo for Pair<'a, T>\nwhere T: Clone\n{\nCODE\n}"
    );
}

#[test]
fn end_to_end_new_trait_impl() {
    let module = ModuleData { impls: Vec::new() };
    let adt = no_attr_adt("Pair", Some(pair_generics()));
    assert!(matches!(
        find_struct_impl(&module, &adt, "foo"),
        Some(ImplSearchOutcome::NotFound)
    ));
    let r = synthesize_trait_impl(&module, &adt, "Foo", foo_trait_items(), DefaultMethods::No);
    match r {
        SynthesisOutcome::Edit { point, anchor } => {
            assert_eq!(point.offset, 100);
            assert_eq!(
                point.text,
                "\n\nimpl<T: Clone > Foo for Pair<T> {\n\
                 fn foo(&self) {\n        todo!()\n    }\n\
                 type Bar;\n\
                 const BAZ: i32;\n}"
            );
            assert_eq!(anchor.name, "foo");
        }
        _ => panic!("expected a staged edit"),
    }
}

#[test]
fn extend_existing_impl_keeps_candidates_in_order() {
    let module = ModuleData {
        impls: vec![inherent_impl(vec![ImplMember { is_fn: true, name: Some(s("existing")) }])],
    };
    let adt = no_attr_adt("Pair", Some(pair_generics()));
    let r = synthesize_trait_impl(&module, &adt, "Foo", foo_trait_items(), DefaultMethods::No);
    match r {
        SynthesisOutcome::Edit { point, anchor } => {
            assert_eq!(point.offset, 55);
            assert_eq!(
                point.text,
                "\nfn foo(&self) {\n        todo!()\n    }\ntype Bar;\nconst BAZ: i32;"
            );
            let foo_at = point.text.find("fn foo").unwrap();
            let bar_at = point.text.find("type Bar;").unwrap();
            let baz_at = point.text.find("const BAZ: i32;").unwrap();
            assert!(foo_at < bar_at && bar_at < baz_at);
            assert_eq!(anchor.name, "foo");
        }
        _ => panic!("expected a staged edit"),
    }
}

#[test]
fn conflict_aborts_with_no_edit() {
    let module = ModuleData {
        impls: vec![inherent_impl(vec![ImplMember { is_fn: true, name: Some(s("FOO")) }])],
    };
    let adt = no_attr_adt("Pair", Some(pair_generics()));
    let r = synthesize_trait_impl(&module, &adt, "Foo", foo_trait_items(), DefaultMethods::No);
    assert!(matches!(r, SynthesisOutcome::Conflict));
}

#[test]
fn duplicate_candidate_names_abort() {
    let module = ModuleData { impls: Vec::new() };
    let adt = no_attr_adt("Pair", None);
    let items = vec![
        AssocItemSource {
            source: Some(AssocItemDecl {
                name: Some(s("foo")),
                attrs: Vec::new(),
                fragment: AssocItemFragment::Method { signature: s("fn foo(&self)"), body: None },
            }),
        },
        AssocItemSource {
            source: Some(AssocItemDecl {
                name: Some(s("foo")),
                attrs: Vec::new(),
                fragment: AssocItemFragment::Method { signature: s("fn foo(&mut self)"), body: None },
            }),
        },
    ];
    let r = synthesize_trait_impl(&module, &adt, "Foo", items, DefaultMethods::No);
    assert!(matches!(r, SynthesisOutcome::NotApplicable));
}

#[test]
fn unresolved_target_aborts() {
    let module = ModuleData { impls: Vec::new() };
    let mut adt = no_attr_adt("Pair", None);
    adt.semantic_id = None;
    let r = synthesize_trait_impl(&module, &adt, "Foo", foo_trait_items(), DefaultMethods::No);
    assert!(matches!(r, SynthesisOutcome::NotApplicable));
    assert!(find_struct_impl(&module, &adt, "foo").is_none());
}

#[test]
fn located_impl_without_closing_brace_aborts() {
    let module = ModuleData {
        impls: vec![ImplData {
            semantics: Some(ImplSemantics { self_ty_adt: Some(7), is_trait_impl: false }),
            item_list: Some(AssocItemListData {
                members: Vec::new(),
                lcurly_end: Some(20),
                rcurly_prev_end: None,
            }),
        }],
    };
    let adt = no_attr_adt("Pair", None);
    let r = synthesize_trait_impl(&module, &adt, "Foo", foo_trait_items(), DefaultMethods::No);
    assert!(matches!(r, SynthesisOutcome::NotApplicable));
}

#[test]
fn empty_selection_aborts() {
    let module = ModuleData { impls: Vec::new() };
    let adt = no_attr_adt("Pair", None);
    let r = synthesize_trait_impl(&module, &adt, "Foo", Vec::new(), DefaultMethods::No);
    assert!(matches!(r, SynthesisOutcome::NotApplicable));
}

#[test]
fn trait_impls_and_foreign_impls_are_skipped() {
    let module = ModuleData {
        impls: vec![
            ImplData {
                semantics: Some(ImplSemantics { self_ty_adt: Some(7), is_trait_impl: true }),
                item_list: None,
            },
            ImplData {
                semantics: Some(ImplSemantics { self_ty_adt: Some(9), is_trait_impl: false }),
                item_list: None,
            },
            ImplData { semantics: None, item_list: None },
            inherent_impl(Vec::new()),
        ],
    };
    assert_eq!(locate_inherent_impl(&module, 7), Some(3));
    let adt = no_attr_adt("Pair", None);
    assert!(matches!(
        find_struct_impl(&module, &adt, "anything"),
        Some(ImplSearchOutcome::Found(3))
    ));
}

#[test]
fn find_struct_impl_reports_conflict() {
    let module = ModuleData {
        impls: vec![inherent_impl(vec![ImplMember { is_fn: true, name: Some(s("New")) }])],
    };
    let adt = no_attr_adt("Pair", None);
    assert!(matches!(
        find_struct_impl(&module, &adt, "new"),
        Some(ImplSearchOutcome::Conflict)
    ));
}

#[test]
fn filter_no_defaults_keeps_bodyless_fns_aliases_and_consts() {
    let r = filter_assoc_items(foo_trait_items(), DefaultMethods::No);
    assert_eq!(r.len(), 3);
    assert_eq!(r[0].name, "foo");
    assert_eq!(r[1].name, "Bar");
    assert_eq!(r[2].name, "BAZ");
}

#[test]
fn filter_only_defaults_keeps_fns_with_bodies_alone() {
    let mut items = foo_trait_items();
    items.push(AssocItemSource {
        source: Some(AssocItemDecl {
            name: Some(s("ready")),
            attrs: Vec::new(),
            fragment: AssocItemFragment::Method {
                signature: s("fn ready(&self) -> bool"),
                body: Some(s("{ true }")),
            },
        }),
    });
    let r = filter_assoc_items(items, DefaultMethods::Only);
    assert_eq!(r.len(), 1);
    assert_eq!(r[0].name, "ready");
}

#[test]
fn filter_drops_unnamed_and_sourceless_items() {
    let items = vec![
        AssocItemSource { source: None },
        AssocItemSource {
            source: Some(AssocItemDecl {
                name: None,
                attrs: Vec::new(),
                fragment: AssocItemFragment::ConstItem { text: s("const _: i32 = 0;") },
            }),
        },
    ];
    let r = filter_assoc_items(items, DefaultMethods::No);
    assert!(r.is_empty());
}

#[test]
fn bodyless_fn_gets_exactly_one_placeholder_body() {
    let p = prepare_candidate(fn_candidate("foo", "fn foo(&self)", None));
    match p.fragment {
        AssocItemFragment::Method { signature, body } => {
            assert_eq!(signature, "fn foo(&self)");
            assert_eq!(body.as_deref(), Some("{\n        todo!()\n    }"));
        }
        _ => panic!("expected a function fragment"),
    }
}

#[test]
fn fn_with_body_keeps_it_unmodified() {
    let p = prepare_candidate(fn_candidate("foo", "fn foo(&self)", Some("{ self.x }")));
    match p.fragment {
        AssocItemFragment::Method { body, .. } => {
            assert_eq!(body.as_deref(), Some("{ self.x }"));
        }
        _ => panic!("expected a function fragment"),
    }
}

#[test]
fn type_alias_bounds_are_stripped_and_attrs_removed() {
    let c = AssocItemCandidate {
        name: s("Bar"),
        attrs: vec![s("#[doc = \"docs\"]")],
        fragment: AssocItemFragment::TypeAlias {
            head: s("type Bar"),
            bounds: Some(s("Clone")),
            tail: s(";"),
        },
    };
    assert_eq!(render_assoc_item(&c), "#[doc = \"docs\"]\ntype Bar: Clone;");
    let p = prepare_candidate(c);
    assert!(p.attrs.is_empty());
    assert_eq!(render_assoc_item(&p), "type Bar;");
}

#[test]
fn const_candidate_is_copied_verbatim() {
    let c = AssocItemCandidate {
        name: s("BAZ"),
        attrs: Vec::new(),
        fragment: AssocItemFragment::ConstItem { text: s("const BAZ: i32;") },
    };
    let p = prepare_candidate(c);
    assert_eq!(render_assoc_item(&p), "const BAZ: i32;");
}

#[test]
fn trait_items_are_prepared_and_recorded_on_the_impl() {
    let imp = inherent_impl(vec![ImplMember { is_fn: true, name: Some(s("existing")) }]);
    let items = vec![
        fn_candidate("foo", "fn foo(&self)", None),
        AssocItemCandidate {
            name: s("Bar"),
            attrs: vec![s("#[doc = \"docs\"]")],
            fragment: AssocItemFragment::TypeAlias {
                head: s("type Bar"),
                bounds: Some(s("Clone")),
                tail: s(";"),
            },
        },
    ];
    let (updated, prepared, first) = add_trait_assoc_items_to_impl(&imp, items);
    assert_eq!(first.name, "foo");
    assert_eq!(prepared.len(), 2);
    assert_eq!(render_assoc_item(&prepared[0]), "fn foo(&self) {\n        todo!()\n    }");
    assert_eq!(render_assoc_item(&prepared[1]), "type Bar;");
    let list = updated.item_list.unwrap();
    assert_eq!(list.lcurly_end, Some(20));
    assert_eq!(list.rcurly_prev_end, Some(55));
    assert_eq!(list.members.len(), 3);
    assert_eq!(list.members[0].name.as_deref(), Some("existing"));
    assert!(list.members[1].is_fn);
    assert_eq!(list.members[1].name.as_deref(), Some("foo"));
    assert!(!list.members[2].is_fn);
    assert_eq!(list.members[2].name.as_deref(), Some("Bar"));
}

#[test]
fn trait_items_get_a_created_item_list_when_the_impl_has_none() {
    let imp = ImplData {
        semantics: Some(ImplSemantics { self_ty_adt: Some(7), is_trait_impl: false }),
        item_list: None,
    };
    let (updated, prepared, first) = add_trait_assoc_items_to_impl(
        &imp,
        vec![fn_candidate("foo", "fn foo(&self)", None)],
    );
    assert_eq!(first.name, "foo");
    assert_eq!(prepared.len(), 1);
    let list = updated.item_list.unwrap();
    assert_eq!(list.lcurly_end, None);
    assert_eq!(list.rcurly_prev_end, None);
    assert_eq!(list.members.len(), 1);
    assert_eq!(list.members[0].name.as_deref(), Some("foo"));
}

#[test]
fn add_method_extends_a_well_formed_impl() {
    let imp = inherent_impl(Vec::new());
    let adt = no_attr_adt("S", None);
    let point = add_method_to_adt(&adt, Some(&imp), "fn new() -> S { S }");
    assert_eq!(point.offset, 55);
    assert_eq!(point.text, "\nfn new() -> S { S }");
}

#[test]
fn add_method_generates_an_impl_when_none_is_given() {
    let adt = no_attr_adt("S", None);
    let point = add_method_to_adt(&adt, None, "fn new() -> S { S }");
    assert_eq!(point.offset, 100);
    assert_eq!(point.text, "\n\nimpl S {\nfn new() -> S { S }\n}");
}

#[test]
fn add_method_falls_back_when_the_impl_is_malformed() {
    let imp = ImplData {
        semantics: Some(ImplSemantics { self_ty_adt: Some(7), is_trait_impl: false }),
        item_list: None,
    };
    let adt = no_attr_adt("S", None);
    let point = add_method_to_adt(&adt, Some(&imp), "fn new() -> S { S }");
    assert_eq!(point.offset, 100);
    assert_eq!(point.text, "\n\nimpl S {\n\nfn new() -> S { S }\n}");
}

#[test]
fn impl_block_bounds_are_the_recorded_token_offsets() {
    let imp = inherent_impl(Vec::new());
    assert_eq!(find_impl_block_start(&imp), Some(20));
    assert_eq!(find_impl_block_end(&imp), Some(55));
    let bare = ImplData {
        semantics: Some(ImplSemantics { self_ty_adt: Some(7), is_trait_impl: false }),
        item_list: None,
    };
    assert_eq!(find_impl_block_start(&bare), None);
    assert_eq!(find_impl_block_end(&bare), None);
}

#[test]
fn has_fn_is_case_insensitive_and_skips_non_fns() {
    let imp = inherent_impl(vec![
        ImplMember { is_fn: false, name: Some(s("new")) },
        ImplMember { is_fn: true, name: None },
        ImplMember { is_fn: true, name: Some(s("NEW")) },
    ]);
    assert!(has_fn(&imp, "new"));
    assert!(!has_fn(&imp, "other"));
}

#[test]
fn get_methods_keeps_named_fns_in_order() {
    let list = AssocItemListData {
        members: vec![
            ImplMember { is_fn: true, name: Some(s("a")) },
            ImplMember { is_fn: false, name: Some(s("B")) },
            ImplMember { is_fn: true, name: None },
            ImplMember { is_fn: true, name: Some(s("c")) },
        ],
        lcurly_end: None,
        rcurly_prev_end: None,
    };
    let ms = get_methods(&list);
    assert_eq!(ms.len(), 2);
    assert_eq!(ms[0].name.as_deref(), Some("a"));
    assert_eq!(ms[1].name.as_deref(), Some("c"));
}

#[test]
fn test_attribute_heuristic_finds_the_first_match() {
    let attrs = vec![
        AttrData { text: s("#[inline]"), path: Some(s("inline")), simple_call_name: None },
        AttrData { text: s("#[tokio::test]"), path: Some(s("tokio::test")), simple_call_name: None },
        AttrData {
            text: s("#[test_case(1)]"),
            path: Some(s("test_case")),
            simple_call_name: Some(s("test_case")),
        },
    ];
    let found = test_related_attribute(&attrs).unwrap();
    assert_eq!(found.text, "#[tokio::test]");
    let plain = vec![AttrData { text: s("#[inline]"), path: Some(s("inline")), simple_call_name: None }];
    assert!(test_related_attribute(&plain).is_none());
}

#[test]
fn useless_type_special_cases() {
    assert_eq!(
        useless_type_special_case("name", &s("String")),
        Some((s("&str"), s("self.name.as_str()")))
    );
    assert_eq!(
        useless_type_special_case("xs", &s("Vec<u8>")),
        Some((s("&[u8]"), s("self.xs.as_slice()")))
    );
    assert_eq!(
        useless_type_special_case("b", &s("Box<Foo>")),
        Some((s("&Foo"), s("self.b.as_ref()")))
    );
    assert_eq!(
        useless_type_special_case("o", &s("Option<Foo>")),
        Some((s("Option<&Foo>"), s("self.o.as_ref()")))
    );
    assert_eq!(useless_type_special_case("n", &s("i32")), None);
}

#[test]
fn ty_ctor_strips_exactly_one_constructor() {
    assert_eq!(ty_ctor(&s("Vec<Foo>"), "Vec"), Some(s("Foo")));
    assert_eq!(ty_ctor(&s("Vec<>"), "Vec"), Some(s("")));
    assert_eq!(ty_ctor(&s("Vec"), "Vec"), None);
    assert_eq!(ty_ctor(&s("Vec<Foo"), "Vec"), None);
    assert_eq!(ty_ctor(&s("Set<Foo>"), "Vec"), None);
}

#[test]
fn string_helpers_behave_like_std() {
    assert!(str_eq("abc", "abc"));
    assert!(!str_eq("abc", "abd"));
    assert!(str_eq_ignore_ascii_case("FooBar", "fOObAR"));
    assert!(!str_eq_ignore_ascii_case("foo", "fooo"));
    assert!(str_starts_with("test_case", "test"));
    assert!(str_starts_with("x", ""));
    assert!(!str_starts_with("te", "test"));
    assert!(str_ends_with("tokio::test", "test"));
    assert!(!str_ends_with("testing", "test"));
    assert_eq!(join_strings(&Vec::new(), ", "), "");
    assert_eq!(join_strings(&vec![s("a")], ", "), "a");
    assert_eq!(join_strings(&vec![s("a"), s("b"), s("c")], ", "), "a, b, c");
}
