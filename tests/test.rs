use askama_enum::expand::derive_enum_template;
use askama_enum::model::{
    Attribute, DataKind, DeriveInput, Fields, GenericKind, GenericParam, NamedField, Variant,
};

fn template(args: &str) -> Attribute {
    Attribute {
        path: "template".to_string(),
        is_list: true,
        text: format!("#[template({})]", args),
    }
}

fn my_enum() -> DeriveInput {
    DeriveInput {
        kind: DataKind::Enum,
        ident: "MyEnum".to_string(),
        attrs: vec![template("ext = \"txt\", source = \"DEFAULT\"")],
        generics: vec![
            GenericParam {
                kind: GenericKind::Lifetime,
                name: "'a".to_string(),
                bounds: String::new(),
            },
            GenericParam { kind: GenericKind::Type, name: "T".to_string(), bounds: String::new() },
        ],
        where_clause: "where T: std::fmt::Display".to_string(),
        variants: vec![
            Variant { ident: "A".to_string(), attrs: vec![], fields: Fields::Unit },
            Variant {
                ident: "B".to_string(),
                attrs: vec![template("ext = \"html\", source = \"x{{self.0}}y\"")],
                fields: Fields::Unnamed(vec!["&'a T".to_string()]),
            },
            Variant {
                ident: "C".to_string(),
                attrs: vec![template("ext = \"txt\", source = \"{{some}}|{{more}}|{{fields}}\"")],
                fields: Fields::Named(vec![
                    NamedField { name: "some".to_string(), ty: "T".to_string() },
                    NamedField { name: "more".to_string(), ty: "u32".to_string() },
                    NamedField { name: "fields".to_string(), ty: "&'a str".to_string() },
                ]),
            },
        ],
    }
}

/// The template attribute that sits right above the struct `name`.
fn template_of(code: &str, name: &str) -> String {
    let at = code.find(&format!("\nstruct {}", name)).unwrap();
    let head = &code[..at];
    let start = head.rfind("#[template(").unwrap();
    head[start..].to_string()
}

#[test]
fn test_test() {
    let code = derive_enum_template(&my_enum()).unwrap();

    // A relies on the enum's template.
    assert!(code.contains("Self::A => _MyEnum_0_A::<'a, '_, T>(::std::marker::PhantomData).render(),\n"));
    assert_eq!(
        template_of(&code, "_MyEnum_0_A"),
        "#[template(ext = \"txt\", source = \"DEFAULT\")]"
    );

    // B borrows its field and renders it HTML-escaped.
    assert!(code.contains("Self::B(_0) => _MyEnum_1_B::<'a, '_, T>(_0, ::std::marker::PhantomData).render(),\n"));
    assert!(code.contains(
        "#[template(ext = \"html\", source = \"x{{self.0}}y\")]\nstruct _MyEnum_1_B<'a, '_MyEnum_1_B, T>(&'_MyEnum_1_B &'a T, ::std::marker::PhantomData<&'_MyEnum_1_B MyEnum<'a, T>>) where T: std::fmt::Display;\n"
    ));
    let b = format!("x{}y", askama::filters::escape(askama::Html, "<hello>").unwrap());
    assert_eq!(b, "x&lt;hello&gt;y");

    // C keeps its field names.
    assert!(code.contains("Self::C { some: _0, more: _1, fields: _2 } => _MyEnum_2_C::<'a, '_, T> { some: _0, more: _1, fields: _2, _MyEnum_2_C: ::std::marker::PhantomData }.render_into(writer),\n"));
    assert!(code.contains(
        "struct _MyEnum_2_C<'a, '_MyEnum_2_C, T> where T: std::fmt::Display { some: &'_MyEnum_2_C T, more: &'_MyEnum_2_C u32, fields: &'_MyEnum_2_C &'a str, _MyEnum_2_C: ::std::marker::PhantomData<&'_MyEnum_2_C MyEnum<'a, T>> }\n"
    ));
    let c = format!("{}|{}|{}", "<hello>", 123, "bye");
    assert_eq!(c, "<hello>|123|bye");
}
