use askama_enum::expand::{derive_enum_template, dispatch_text};
use askama_enum::model::{
    Attribute, DataKind, DeriveInput, ExpandError, Fields, GenericKind, GenericParam, Variant,
};
use askama_enum::text::push_decimal;
use askama_enum::variant::aux_name_text;

fn template(args: &str) -> Attribute {
    Attribute { path: "template".to_string(), is_list: true, text: format!("#[template({})]", args) }
}

fn other(path: &str, is_list: bool) -> Attribute {
    Attribute { path: path.to_string(), is_list, text: format!("#[{}]", path) }
}

fn unit(name: &str, attrs: Vec<Attribute>) -> Variant {
    Variant { ident: name.to_string(), attrs, fields: Fields::Unit }
}

fn input(attrs: Vec<Attribute>, variants: Vec<Variant>) -> DeriveInput {
    DeriveInput {
        kind: DataKind::Enum,
        ident: "E".to_string(),
        attrs,
        generics: vec![],
        where_clause: String::new(),
        variants,
    }
}

#[test]
fn whole_expansion_of_a_unit_enum() {
    let code = derive_enum_template(&input(vec![template("source = \"d\"")], vec![unit("A", vec![])])).unwrap();
    let expected = [
        "#[allow(non_camel_case_types, non_snake_case, unused_qualifications)]\nconst _: () = {\n",
        "impl askama::Template for E {\n",
        "fn render(&self) -> askama::Result<::std::string::String> {\n",
        "match self {\nSelf::A => _E_0_A::<'_>(::std::marker::PhantomData).render(),\n}\n}\n",
        "fn render_into(&self, writer: &mut (impl ::std::fmt::Write + ?::std::marker::Sized)) -> askama::Result<()> {\n",
        "match self {\nSelf::A => _E_0_A::<'_>(::std::marker::PhantomData).render_into(writer),\n}\n}\n",
        "const EXTENSION: ::std::option::Option<&'static str> = <_E_0_A as askama::Template>::EXTENSION;\n",
        "const SIZE_HINT: ::std::primitive::usize = <_E_0_A as askama::Template>::SIZE_HINT;\n",
        "const MIME_TYPE: &'static ::std::primitive::str = <_E_0_A as askama::Template>::MIME_TYPE;\n}\n",
        "#[::std::prelude::v1::derive(askama::Template, ::std::prelude::v1::Clone, ::std::prelude::v1::Copy, ::std::prelude::v1::Debug)]\n",
        "#[template(source = \"d\")]\nstruct _E_0_A<'_E_0_A>(::std::marker::PhantomData<&'_E_0_A E>);\n",
        "impl ::std::fmt::Display for E {\n#[inline]\nfn fmt(&self, f: &mut ::std::fmt::Formatter<'_>) -> ::std::fmt::Result {\n",
        "askama::Template::render_into(self, f).map_err(|_| ::std::fmt::Error {})\n}\n}\n",
        "};\n",
    ]
    .concat();
    assert_eq!(code, expected);
}

#[test]
fn default_is_the_single_unannotated_variant() {
    let code = derive_enum_template(&input(
        vec![template("source = \"d\"")],
        vec![unit("A", vec![template("source = \"a\"")]), unit("B", vec![]), unit("C", vec![template("source = \"c\"")])],
    ))
    .unwrap();
    assert!(code.contains("= <_E_1_B as askama::Template>::EXTENSION;"));
    assert!(code.contains("#[template(source = \"d\")]\nstruct _E_1_B<"));
}

#[test]
fn default_is_the_first_unannotated_variant() {
    let code = derive_enum_template(&input(
        vec![template("source = \"d\"")],
        vec![unit("A", vec![template("source = \"a\"")]), unit("B", vec![]), unit("C", vec![])],
    ))
    .unwrap();
    assert!(code.contains("= <_E_1_B as askama::Template>::MIME_TYPE;"));
}

#[test]
fn default_is_the_first_variant_when_all_are_annotated() {
    let code = derive_enum_template(&input(
        vec![],
        vec![unit("A", vec![template("source = \"a\"")]), unit("B", vec![template("source = \"b\"")])],
    ))
    .unwrap();
    assert!(code.contains("= <_E_0_A as askama::Template>::SIZE_HINT;"));
}

#[test]
fn other_attributes_are_ignored() {
    let code = derive_enum_template(&input(
        vec![other("doc", false), template("source = \"d\""), other("template", false)],
        vec![unit("A", vec![other("allow", true), other("template", false)])],
    ))
    .unwrap();
    assert!(code.contains("#[template(source = \"d\")]\nstruct _E_0_A"));
    assert!(!code.contains("#[allow]"));
}

#[test]
fn struct_and_union_are_refused() {
    let mut s = input(vec![], vec![]);
    s.kind = DataKind::Struct;
    let e = derive_enum_template(&s).unwrap_err();
    assert_eq!(e, ExpandError::NotAnEnum(DataKind::Struct));
    assert_eq!(e.message(), "#[derive(EnumTemplate)] can only be used with enums");
    s.kind = DataKind::Union;
    assert_eq!(derive_enum_template(&s).unwrap_err(), ExpandError::NotAnEnum(DataKind::Union));
}

#[test]
fn duplicate_type_annotation_is_refused() {
    let e = derive_enum_template(&input(
        vec![template("source = \"a\""), other("doc", false), template("source = \"b\"")],
        vec![unit("A", vec![template("a"), template("b")])],
    ))
    .unwrap_err();
    assert_eq!(e, ExpandError::DuplicateTypeTemplate { attr: 2 });
    assert_eq!(e.message(), "cannot have more than one #[template] attribute for a type");
}

#[test]
fn duplicate_variant_annotation_is_refused() {
    let e = derive_enum_template(&input(
        vec![],
        vec![
            unit("A", vec![template("a")]),
            unit("B", vec![template("b"), template("c")]),
            unit("C", vec![]),
        ],
    ))
    .unwrap_err();
    assert_eq!(e, ExpandError::DuplicateVariantTemplate { variant: 1, attr: 1 });
    assert_eq!(e.message(), "cannot have more than one #[template] attribute for a variant");
}

#[test]
fn missing_annotation_is_refused() {
    let e = derive_enum_template(&input(
        vec![],
        vec![unit("A", vec![template("a")]), unit("B", vec![]), unit("C", vec![template("b"), template("c")])],
    ))
    .unwrap_err();
    assert_eq!(e, ExpandError::MissingTemplate { variant: 1 });
    assert_eq!(e.message(), "need a #[template] attribute");
}

#[test]
fn generics_keep_bounds_and_order() {
    let mut i = input(vec![template("source = \"d\"")], vec![unit("A", vec![])]);
    i.generics = vec![
        GenericParam { kind: GenericKind::Lifetime, name: "'a".to_string(), bounds: String::new() },
        GenericParam { kind: GenericKind::Lifetime, name: "'b".to_string(), bounds: "'a".to_string() },
        GenericParam { kind: GenericKind::Type, name: "T".to_string(), bounds: "Clone".to_string() },
        GenericParam { kind: GenericKind::Const, name: "N".to_string(), bounds: "usize".to_string() },
    ];
    let code = derive_enum_template(&i).unwrap();
    assert!(code.contains("impl<'a, 'b: 'a, T: Clone, const N: usize> askama::Template for E<'a, 'b, T, N> {\n"));
    assert!(code.contains("struct _E_0_A<'a, 'b: 'a, '_E_0_A, T: Clone, const N: usize>(::std::marker::PhantomData<&'_E_0_A E<'a, 'b, T, N>>);\n"));
    assert!(code.contains("Self::A => _E_0_A::<'a, 'b, '_, T, N>(::std::marker::PhantomData).render(),\n"));
    assert!(code.contains("<_E_0_A::<T, N> as askama::Template>::EXTENSION"));
    assert!(code.contains("impl<'a, 'b: 'a, T: Clone, const N: usize> ::std::fmt::Display for E<'a, 'b, T, N> {\n"));
}

#[test]
fn names_carry_multi_digit_indices() {
    let variants: Vec<Variant> = (0..12).map(|k| unit(&format!("V{}", k), vec![])).collect();
    let i = input(vec![template("source = \"d\"")], variants);
    assert_eq!(aux_name_text(&i, 11), "_E_11_V11");
    assert_eq!(aux_name_text(&i, 0), "_E_0_V0");
    let mut s = String::from("n=");
    push_decimal(&mut s, 1207);
    assert_eq!(s, "n=1207");
}

#[test]
fn dispatch_has_one_arm_per_variant_in_order() {
    let i = input(
        vec![template("source = \"d\"")],
        vec![
            unit("A", vec![]),
            Variant { ident: "B".to_string(), attrs: vec![], fields: Fields::Unnamed(vec!["u8".to_string(), "u16".to_string()]) },
            Variant { ident: "C".to_string(), attrs: vec![], fields: Fields::Unnamed(vec![]) },
        ],
    );
    assert_eq!(
        dispatch_text(&i, "render_into", "writer"),
        [
            "match self {\n",
            "Self::A => _E_0_A::<'_>(::std::marker::PhantomData).render_into(writer),\n",
            "Self::B(_0, _1) => _E_1_B::<'_>(_0, _1, ::std::marker::PhantomData).render_into(writer),\n",
            "Self::C() => _E_2_C::<'_>(::std::marker::PhantomData).render_into(writer),\n",
            "}",
        ]
        .concat()
    );
}

#[test]
fn display_forwards_to_render_into() {
    let code = derive_enum_template(&input(vec![template("source = \"d\"")], vec![unit("A", vec![])])).unwrap();
    assert!(code.contains("askama::Template::render_into(self, f).map_err(|_| ::std::fmt::Error {})"));
}

#[test]
fn empty_enum_with_two_type_annotations_is_refused() {
    let e = derive_enum_template(&input(vec![template("a"), template("b")], vec![])).unwrap_err();
    assert_eq!(e, ExpandError::DuplicateTypeTemplate { attr: 1 });
}

#[test]
fn a_path_other_than_template_is_no_annotation() {
    let e = derive_enum_template(&input(vec![other("askama::template", true)], vec![unit("A", vec![])]))
        .unwrap_err();
    assert_eq!(e, ExpandError::MissingTemplate { variant: 0 });
}

#[test]
fn aux_names_differ_for_equal_variant_names() {
    let variants: Vec<Variant> = (0..12).map(|_| unit("A", vec![])).collect();
    let i = input(vec![template("source = \"d\"")], variants);
    assert_eq!(aux_name_text(&i, 1), "_E_1_A");
    assert_eq!(aux_name_text(&i, 11), "_E_11_A");
    assert_ne!(aux_name_text(&i, 1), aux_name_text(&i, 11));
}
