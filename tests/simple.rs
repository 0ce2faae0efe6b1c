use askama_enum::expand::derive_enum_template;
use askama_enum::model::{Attribute, DataKind, DeriveInput, Fields, Variant};

fn template(args: &str) -> Attribute {
    Attribute {
        path: "template".to_string(),
        is_list: true,
        text: format!("#[template({})]", args),
    }
}

fn unit(name: &str, attrs: Vec<Attribute>) -> Variant {
    Variant { ident: name.to_string(), attrs, fields: Fields::Unit }
}

/// The literal source of the template that the struct `name` carries.
fn source_of(code: &str, name: &str) -> String {
    let at = code.find(&format!("\nstruct {}", name)).unwrap();
    let head = &code[..at];
    let start = head.rfind("source = \"").unwrap() + "source = \"".len();
    let end = head[start..].find('"').unwrap();
    head[start..start + end].to_string()
}

#[test]
fn simple_test() {
    let input = DeriveInput {
        kind: DataKind::Enum,
        ident: "MyEnum".to_string(),
        attrs: vec![],
        generics: vec![],
        where_clause: String::new(),
        variants: vec![
            unit("A", vec![template("ext = \"txt\", source = \"A\"")]),
            unit("B", vec![template("ext = \"txt\", source = \"B\"")]),
            unit("C", vec![template("ext = \"txt\", source = \"C\"")]),
        ],
    };
    let code = derive_enum_template(&input).unwrap();
    assert!(code.contains("Self::A => _MyEnum_0_A::<'_>(::std::marker::PhantomData).render(),\n"));
    assert!(code.contains("Self::B => _MyEnum_1_B::<'_>(::std::marker::PhantomData).render(),\n"));
    assert!(code.contains("Self::C => _MyEnum_2_C::<'_>(::std::marker::PhantomData).render(),\n"));
    assert_eq!(source_of(&code, "_MyEnum_0_A"), "A");
    assert_eq!(source_of(&code, "_MyEnum_1_B"), "B");
    assert_eq!(source_of(&code, "_MyEnum_2_C"), "C");
}
