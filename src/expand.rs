//! The whole transformation: validation, the default variant, the dispatch
//! and the enum's own impls.

use vstd::prelude::*;
use crate::model::{DataKind, DeriveInput, ExpandError, Variant};
use crate::text::{concat, strs, push_join};
use crate::extract::{
    first_template, second_template, effective_template, find_template,
};
use crate::generics::{
    impl_generics, self_type, where_text, param_texts, angle, impl_generics_text, self_type_text,
    where_text_of, angle_text, param_parts,
};
use crate::variant::{aux_name, aux_struct, arm, aux_name_text, aux_struct_text, arm_text};

verus! {

/// The first error among the variants: for each variant in order, a second
/// annotation of its own, else a missing one when the type has no default.
pub open spec fn variant_error(vs: Seq<Variant>, has_default: bool) -> Option<ExpandError>
    decreases vs.len(),
{
    if vs.len() == 0 {
        None
    } else {
        let e = variant_error(vs.drop_last(), has_default);
        if e is Some {
            e
        } else {
            let i = vs.len() - 1;
            let attrs = vs.last().attrs@;
            if second_template(attrs) >= 0 {
                Some(
                    ExpandError::DuplicateVariantTemplate {
                        variant: i as usize,
                        attr: second_template(attrs) as usize,
                    },
                )
            } else if first_template(attrs) < 0 && !has_default {
                Some(ExpandError::MissingTemplate { variant: i as usize })
            } else {
                None
            }
        }
    }
}

/// Why the input cannot be transformed, if it cannot.
pub open spec fn expand_error(input: DeriveInput) -> Option<ExpandError> {
    if input.kind != DataKind::Enum {
        Some(ExpandError::NotAnEnum(input.kind))
    } else if second_template(input.attrs@) >= 0 {
        Some(ExpandError::DuplicateTypeTemplate { attr: second_template(input.attrs@) as usize })
    } else {
        variant_error(input.variants@, first_template(input.attrs@) >= 0)
    }
}

/// Index of the first variant without an annotation of its own, or -1.
pub open spec fn first_unannotated(vs: Seq<Variant>) -> int
    decreases vs.len(),
{
    if vs.len() == 0 {
        -1
    } else {
        let k = first_unannotated(vs.drop_last());
        if k >= 0 {
            k
        } else if first_template(vs.last().attrs@) < 0 {
            vs.len() - 1
        } else {
            -1
        }
    }
}

/// The variant whose template metadata the enum adopts: the first that
/// relies on the type's annotation, else the first variant.
pub open spec fn default_variant(input: DeriveInput) -> int {
    let k = first_unannotated(input.variants@);
    if k >= 0 {
        k
    } else {
        0
    }
}

/// A `match self` with one arm per variant, in order, each calling
/// `method(args)` on the variant's auxiliary value.
pub open spec fn dispatch(input: DeriveInput, method: Seq<char>, args: Seq<char>) -> Seq<char> {
    "match self {\n"@ + concat(
        Seq::new(input.variants@.len(), |i: int| arm(input, i, method, args)),
    ) + "}"@
}

/// The path prefix of the template metadata of variant `i`'s auxiliary
/// struct, applied to the type's type and const parameters.
pub open spec fn metadata_of(input: DeriveInput, i: int) -> Seq<char> {
    let p = param_texts(input.generics@, false, false);
    "<"@ + aux_name(input, i) + (if p.len() == 0 {
        Seq::empty()
    } else {
        "::"@ + angle(p)
    }) + " as askama::Template>::"@
}

/// The path prefix of the enum's own metadata: the default variant's.
pub open spec fn metadata_source(input: DeriveInput) -> Seq<char> {
    metadata_of(input, default_variant(input))
}

/// The enum's template impl: render and render_into dispatch, and the three
/// constants read off the default variant's auxiliary struct.
pub open spec fn template_impl(input: DeriveInput) -> Seq<char> {
    let m = metadata_source(input);
    "impl"@ + impl_generics(input) + " askama::Template for "@ + self_type(input) + where_text(
        input,
    ) + " {\n"@ + "fn render(&self) -> askama::Result<::std::string::String> {\n"@ + dispatch(
        input,
        "render"@,
        ""@,
    ) + "\n}\n"@
        + "fn render_into(&self, writer: &mut (impl ::std::fmt::Write + ?::std::marker::Sized)) -> askama::Result<()> {\n"@
        + dispatch(input, "render_into"@, "writer"@) + "\n}\n"@
        + "const EXTENSION: ::std::option::Option<&'static str> = "@ + m + "EXTENSION;\n"@
        + "const SIZE_HINT: ::std::primitive::usize = "@ + m + "SIZE_HINT;\n"@
        + "const MIME_TYPE: &'static ::std::primitive::str = "@ + m + "MIME_TYPE;\n}\n"@
}

/// The body of the `Display` adapter: render into the formatter, and turn
/// any failure into the formatter's own error.
pub open spec fn display_body() -> Seq<char> {
    "askama::Template::render_into(self, f).map_err(|_| ::std::fmt::Error {})"@
}

/// The enum's `Display` impl.
pub open spec fn display_impl(input: DeriveInput) -> Seq<char> {
    "impl"@ + impl_generics(input) + " ::std::fmt::Display for "@ + self_type(input) + where_text(
        input,
    ) + " {\n#[inline]\nfn fmt(&self, f: &mut ::std::fmt::Formatter<'_>) -> ::std::fmt::Result {\n"@
        + display_body() + "\n}\n}\n"@
}

/// The auxiliary struct of every variant, each with its effective template.
pub open spec fn aux_structs(input: DeriveInput) -> Seq<char> {
    concat(
        Seq::new(
            input.variants@.len(),
            |i: int| aux_struct(input, i, effective_template(input, i)->Some_0.text@),
        ),
    )
}

/// The generated code, in an anonymous const so that no name leaks out.
pub open spec fn expansion(input: DeriveInput) -> Seq<char> {
    "#[allow(non_camel_case_types, non_snake_case, unused_qualifications)]\nconst _: () = {\n"@
        + template_impl(input) + aux_structs(input) + display_impl(input) + "};\n"@
}

pub(crate) proof fn lemma_variant_prefix(vs: Seq<Variant>, j: int, has_default: bool)
    requires
        0 <= j <= vs.len(),
    ensures
        variant_error(vs.take(j), has_default) is Some ==> variant_error(vs, has_default)
            == variant_error(vs.take(j), has_default),
        first_unannotated(vs.take(j)) >= 0 ==> first_unannotated(vs) == first_unannotated(
            vs.take(j),
        ),
    decreases vs.len() - j,
{
    if j < vs.len() {
        lemma_variant_prefix(vs, j + 1, has_default);
        assert(vs.take(j + 1).drop_last() =~= vs.take(j));
    } else {
        assert(vs.take(j) =~= vs);
    }
}

proof fn lemma_first_unannotated_range(vs: Seq<Variant>)
    ensures
        -1 <= first_unannotated(vs) < vs.len(),
    decreases vs.len(),
{
    if vs.len() > 0 {
        lemma_first_unannotated_range(vs.drop_last());
    }
}

/// Appends the strings of `parts` to `out`, one after the other.
fn push_concat(out: &mut String, parts: &Vec<String>)
    ensures
        final(out)@ == old(out)@ + concat(strs(parts@)),
{
    proof {
        reveal_strlit("");
    }
    assert(""@ =~= Seq::<char>::empty());
    push_join(out, parts, "");
}

/// The `match self` that calls `method(args)` on each variant's auxiliary value.
pub fn dispatch_text(input: &DeriveInput, method: &str, args: &str) -> (r: String)
    ensures
        r@ == dispatch(*input, method@, args@),
{
    let n = input.variants.len();
    let mut arms: Vec<String> = Vec::new();
    let mut i: usize = 0;
    while i < n
        invariant
            n == input.variants@.len(),
            i <= n,
            strs(arms@) =~= Seq::new(i as nat, |j: int| arm(*input, j, method@, args@)),
        decreases n - i,
    {
        let a = arm_text(input, i, method, args);
        let ghost before = arms@;
        arms.push(a);
        assert(strs(arms@) =~= strs(before).push(a@));
        i = i + 1;
    }
    let mut s = String::from_str("match self {\n");
    push_concat(&mut s, &arms);
    s.append("}");
    s
}

fn metadata_source_text(input: &DeriveInput, d: usize) -> (r: String)
    requires
        d == default_variant(*input),
        d < input.variants@.len(),
    ensures
        r@ == metadata_source(*input),
{
    let p = param_parts(&input.generics, false, false);
    let mut s = String::from_str("<");
    s.append(aux_name_text(input, d).as_str());
    let mut t = String::new();
    if p.len() > 0 {
        t = String::from_str("::");
        t.append(angle_text(&p).as_str());
    }
    s.append(t.as_str());
    s.append(" as askama::Template>::");
    s
}

/// The enum's template impl; `d` is the default variant.
pub fn template_impl_text(input: &DeriveInput, d: usize) -> (r: String)
    requires
        d == default_variant(*input),
        d < input.variants@.len(),
    ensures
        r@ == template_impl(*input),
{
    let m = metadata_source_text(input, d);
    let mut s = String::from_str("impl");
    s.append(impl_generics_text(input).as_str());
    s.append(" askama::Template for ");
    s.append(self_type_text(input).as_str());
    s.append(where_text_of(input).as_str());
    s.append(" {\n");
    s.append("fn render(&self) -> askama::Result<::std::string::String> {\n");
    s.append(dispatch_text(input, "render", "").as_str());
    s.append("\n}\n");
    s.append(
        "fn render_into(&self, writer: &mut (impl ::std::fmt::Write + ?::std::marker::Sized)) -> askama::Result<()> {\n",
    );
    s.append(dispatch_text(input, "render_into", "writer").as_str());
    s.append("\n}\n");
    s.append("const EXTENSION: ::std::option::Option<&'static str> = ");
    s.append(m.as_str());
    s.append("EXTENSION;\n");
    s.append("const SIZE_HINT: ::std::primitive::usize = ");
    s.append(m.as_str());
    s.append("SIZE_HINT;\n");
    s.append("const MIME_TYPE: &'static ::std::primitive::str = ");
    s.append(m.as_str());
    s.append("MIME_TYPE;\n}\n");
    s
}

/// The enum's `Display` impl.
pub fn display_impl_text(input: &DeriveInput) -> (r: String)
    ensures
        r@ == display_impl(*input),
{
    let mut s = String::from_str("impl");
    s.append(impl_generics_text(input).as_str());
    s.append(" ::std::fmt::Display for ");
    s.append(self_type_text(input).as_str());
    s.append(where_text_of(input).as_str());
    s.append(
        " {\n#[inline]\nfn fmt(&self, f: &mut ::std::fmt::Formatter<'_>) -> ::std::fmt::Result {\n",
    );
    s.append("askama::Template::render_into(self, f).map_err(|_| ::std::fmt::Error {})");
    s.append("\n}\n}\n");
    s
}

/// The auxiliary structs; `templates` holds each variant's effective template.
fn aux_structs_text(input: &DeriveInput, templates: &Vec<String>) -> (r: String)
    requires
        templates@.len() == input.variants@.len(),
        forall|j: int|
            0 <= j < templates@.len() ==> templates@[j]@ == effective_template(
                *input,
                j,
            )->Some_0.text@,
    ensures
        r@ == aux_structs(*input),
{
    let n = input.variants.len();
    let mut parts: Vec<String> = Vec::new();
    let mut i: usize = 0;
    while i < n
        invariant
            n == input.variants@.len(),
            templates@.len() == n,
            forall|j: int|
                0 <= j < templates@.len() ==> templates@[j]@ == effective_template(
                    *input,
                    j,
                )->Some_0.text@,
            i <= n,
            strs(parts@) =~= Seq::new(
                i as nat,
                |j: int| aux_struct(*input, j, effective_template(*input, j)->Some_0.text@),
            ),
        decreases n - i,
    {
        let a = aux_struct_text(input, i, &templates[i]);
        let ghost before = parts@;
        parts.push(a);
        assert(strs(parts@) =~= strs(before).push(a@));
        i = i + 1;
    }
    let mut s = String::new();
    push_concat(&mut s, &parts);
    assert(s@ =~= aux_structs(*input));
    s
}

/// Transforms an enum definition into the code that renders each variant
/// through its own template: the auxiliary structs, the enum's template impl
/// and its `Display` adapter.
///
/// Fails exactly when the input is not an enum, when the type or a variant
/// carries two `#[template]` annotations, or when a variant has none and the
/// type gives no default; the error is the first of these in that order.
pub fn derive_enum_template(input: &DeriveInput) -> (r: Result<String, ExpandError>)
    requires
        input.kind == DataKind::Enum && second_template(input.attrs@) < 0
            ==> input.variants@.len() > 0,
    ensures
        match r {
            Ok(code) => expand_error(*input) is None && code@ == expansion(*input),
            Err(e) => expand_error(*input) == Some(e),
        },
{
    if input.kind != DataKind::Enum {
        return Err(ExpandError::NotAnEnum(input.kind));
    }
    let global = match find_template(&input.attrs) {
        Ok(g) => g,
        Err(k) => {
            return Err(ExpandError::DuplicateTypeTemplate { attr: k });
        },
    };
    let ghost has_default = first_template(input.attrs@) >= 0;
    let n = input.variants.len();
    let mut templates: Vec<String> = Vec::new();
    let mut dflt: Option<usize> = None;
    let mut i: usize = 0;
    while i < n
        invariant
            n == input.variants@.len(),
            input.kind == DataKind::Enum,
            second_template(input.attrs@) < 0,
            match global {
                Some(k) => first_template(input.attrs@) == k && k < input.attrs@.len(),
                None => first_template(input.attrs@) < 0,
            },
            has_default == (first_template(input.attrs@) >= 0),
            i <= n,
            variant_error(input.variants@.take(i as int), has_default) is None,
            match dflt {
                Some(k) => first_unannotated(input.variants@.take(i as int)) == k,
                None => first_unannotated(input.variants@.take(i as int)) < 0,
            },
            templates@.len() == i,
            forall|j: int|
                0 <= j < i ==> templates@[j]@ == effective_template(*input, j)->Some_0.text@,
        decreases n - i,
    {
        let v = &input.variants[i];
        let ghost vs = input.variants@;
        assert(vs.take(i + 1).drop_last() =~= vs.take(i as int));
        assert(vs.take(i + 1).last() == vs[i as int]);
        let local = match find_template(&v.attrs) {
            Ok(l) => l,
            Err(k) => {
                proof {
                    lemma_variant_prefix(vs, i + 1, has_default);
                }
                return Err(ExpandError::DuplicateVariantTemplate { variant: i, attr: k });
            },
        };
        let t = match local {
            Some(k) => v.attrs[k].text.clone(),
            None => {
                if dflt.is_none() {
                    dflt = Some(i);
                }
                match global {
                    Some(k) => input.attrs[k].text.clone(),
                    None => {
                        proof {
                            lemma_variant_prefix(vs, i + 1, has_default);
                        }
                        return Err(ExpandError::MissingTemplate { variant: i });
                    },
                }
            },
        };
        templates.push(t);
        i = i + 1;
    }
    assert(input.variants@.take(n as int) =~= input.variants@);
    let d: usize = match dflt {
        Some(k) => k,
        None => 0,
    };
    proof {
        lemma_first_unannotated_range(input.variants@);
    }
    let mut s = String::from_str(
        "#[allow(non_camel_case_types, non_snake_case, unused_qualifications)]\nconst _: () = {\n",
    );
    s.append(template_impl_text(input, d).as_str());
    s.append(aux_structs_text(input, &templates).as_str());
    s.append(display_impl_text(input).as_str());
    s.append("};\n");
    Ok(s)
}

} // verus!
