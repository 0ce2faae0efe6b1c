//! The auxiliary struct of each variant and the `match` arm that builds it.

use vstd::prelude::*;
use crate::model::{DeriveInput, Fields};
use crate::text::{decimal, join, strs, push_decimal, push_join};
use crate::generics::{
    angle, param_texts, self_type, where_text, angle_text, ordered_params, self_type_text,
    where_text_of,
};

verus! {

/// `_<Type>_<index>_<Variant>`: unique per variant, also across enums.
pub open spec fn aux_name(input: DeriveInput, i: int) -> Seq<char> {
    "_"@ + input.ident@ + "_"@ + decimal(i as nat) + "_"@ + input.variants@[i].ident@
}

/// The lifetime of the borrows that the auxiliary struct holds.
pub open spec fn aux_lifetime(input: DeriveInput, i: int) -> Seq<char> {
    "'"@ + aux_name(input, i)
}

/// The auxiliary struct's parameters: the type's, with its own lifetime
/// after the type's lifetimes.
pub open spec fn aux_generics(input: DeriveInput, i: int) -> Seq<char> {
    angle(
        param_texts(input.generics@, true, true).push(aux_lifetime(input, i)) + param_texts(
            input.generics@,
            false,
            true,
        ),
    )
}

/// The turbofish that instantiates an auxiliary struct inside a dispatch arm.
pub open spec fn inst_generics(input: DeriveInput) -> Seq<char> {
    "::"@ + angle(
        param_texts(input.generics@, true, false).push("'_"@) + param_texts(
            input.generics@,
            false,
            false,
        ),
    )
}

/// The marker that ties the auxiliary struct to the borrowed enum.
pub open spec fn phantom_type(input: DeriveInput, i: int) -> Seq<char> {
    "::std::marker::PhantomData<&"@ + aux_lifetime(input, i) + " "@ + self_type(input) + ">"@
}

pub open spec fn phantom_value() -> Seq<char> {
    "::std::marker::PhantomData"@
}

/// A field's type, borrowed for the auxiliary struct's lifetime.
pub open spec fn field_ref(input: DeriveInput, i: int, ty: Seq<char>) -> Seq<char> {
    "&"@ + aux_lifetime(input, i) + " "@ + ty
}

/// The positional field types of a shape; a unit variant has none.
pub open spec fn positional_types(f: Fields) -> Seq<Seq<char>> {
    match f {
        Fields::Unnamed(tys) => strs(tys@),
        _ => Seq::empty(),
    }
}

/// The fields of the auxiliary struct, with its where clause.
pub open spec fn aux_fields(input: DeriveInput, i: int) -> Seq<char> {
    match input.variants@[i].fields {
        Fields::Named(fs) => where_text(input) + " { "@ + join(
            Seq::new(
                fs@.len(),
                |k: int| fs@[k].name@ + ": "@ + field_ref(input, i, fs@[k].ty@),
            ).push(aux_name(input, i) + ": "@ + phantom_type(input, i)),
            ", "@,
        ) + " }"@,
        _ => {
            let tys = positional_types(input.variants@[i].fields);
            "("@ + join(
                Seq::new(tys.len(), |k: int| field_ref(input, i, tys[k])).push(
                    phantom_type(input, i),
                ),
                ", "@,
            ) + ")"@ + where_text(input) + ";"@
        },
    }
}

pub open spec fn derive_line() -> Seq<char> {
    "#[::std::prelude::v1::derive(askama::Template, ::std::prelude::v1::Clone, ::std::prelude::v1::Copy, ::std::prelude::v1::Debug)]\n"@
}

/// The auxiliary struct of variant `i`, carrying the template attribute `template`.
pub open spec fn aux_struct(input: DeriveInput, i: int, template: Seq<char>) -> Seq<char> {
    derive_line() + template + "\nstruct "@ + aux_name(input, i) + aux_generics(input, i)
        + aux_fields(input, i) + "\n"@
}

/// The name a dispatch arm binds field `k` to.
pub open spec fn binding(k: int) -> Seq<char> {
    "_"@ + decimal(k as nat)
}

/// `name: _k` for each named field.
pub open spec fn named_bindings(input: DeriveInput, i: int) -> Seq<Seq<char>> {
    match input.variants@[i].fields {
        Fields::Named(fs) => Seq::new(fs@.len(), |k: int| fs@[k].name@ + ": "@ + binding(k)),
        _ => Seq::empty(),
    }
}

/// The names an arm binds the fields of variant `i` to, with the field
/// names for a named variant.
pub open spec fn arm_bindings(input: DeriveInput, i: int) -> Seq<Seq<char>> {
    match input.variants@[i].fields {
        Fields::Named(_) => named_bindings(input, i),
        Fields::Unnamed(tys) => Seq::new(tys@.len(), |k: int| binding(k)),
        Fields::Unit => Seq::empty(),
    }
}

/// The pattern that matches variant `i` and binds its fields.
pub open spec fn arm_pattern(input: DeriveInput, i: int) -> Seq<char> {
    let v = input.variants@[i];
    match v.fields {
        Fields::Unit => "Self::"@ + v.ident@,
        Fields::Unnamed(tys) => "Self::"@ + v.ident@ + "("@ + join(
            Seq::new(tys@.len(), |k: int| binding(k)),
            ", "@,
        ) + ")"@,
        Fields::Named(_) => "Self::"@ + v.ident@ + " { "@ + join(named_bindings(input, i), ", "@)
            + " }"@,
    }
}

/// The auxiliary value that an arm builds from its bindings.
pub open spec fn arm_value(input: DeriveInput, i: int) -> Seq<char> {
    let v = input.variants@[i];
    match v.fields {
        Fields::Named(_) => aux_name(input, i) + inst_generics(input) + " { "@ + join(
            named_bindings(input, i).push(aux_name(input, i) + ": "@ + phantom_value()),
            ", "@,
        ) + " }"@,
        _ => aux_name(input, i) + inst_generics(input) + "("@ + join(
            Seq::new(positional_types(v.fields).len(), |k: int| binding(k)).push(
                phantom_value(),
            ),
            ", "@,
        ) + ")"@,
    }
}

/// The arm for variant `i`: build its auxiliary value, call `method(args)` on it.
pub open spec fn arm(input: DeriveInput, i: int, method: Seq<char>, args: Seq<char>) -> Seq<
    char,
> {
    arm_pattern(input, i) + " => "@ + arm_value(input, i) + "."@ + method + "("@ + args
        + "),\n"@
}

pub fn aux_name_text(input: &DeriveInput, i: usize) -> (r: String)
    requires
        i < input.variants@.len(),
    ensures
        r@ == aux_name(*input, i as int),
{
    let mut s = String::from_str("_");
    s.append(input.ident.as_str());
    s.append("_");
    push_decimal(&mut s, i);
    s.append("_");
    s.append(input.variants[i].ident.as_str());
    s
}

fn aux_lifetime_text(input: &DeriveInput, i: usize) -> (r: String)
    requires
        i < input.variants@.len(),
    ensures
        r@ == aux_lifetime(*input, i as int),
{
    let mut s = String::from_str("'");
    s.append(aux_name_text(input, i).as_str());
    s
}

fn phantom_type_text(input: &DeriveInput, i: usize) -> (r: String)
    requires
        i < input.variants@.len(),
    ensures
        r@ == phantom_type(*input, i as int),
{
    let mut s = String::from_str("::std::marker::PhantomData<&");
    s.append(aux_lifetime_text(input, i).as_str());
    s.append(" ");
    s.append(self_type_text(input).as_str());
    s.append(">");
    s
}

fn field_ref_text(input: &DeriveInput, i: usize, ty: &String) -> (r: String)
    requires
        i < input.variants@.len(),
    ensures
        r@ == field_ref(*input, i as int, ty@),
{
    let mut s = String::from_str("&");
    s.append(aux_lifetime_text(input, i).as_str());
    s.append(" ");
    s.append(ty.as_str());
    s
}

fn binding_text(k: usize) -> (r: String)
    ensures
        r@ == binding(k as int),
{
    let mut s = String::from_str("_");
    push_decimal(&mut s, k);
    s
}

/// The fields of the auxiliary struct of variant `i`.
fn aux_fields_text(input: &DeriveInput, i: usize) -> (r: String)
    requires
        i < input.variants@.len(),
    ensures
        r@ == aux_fields(*input, i as int),
{
    let v = &input.variants[i];
    let mut parts: Vec<String> = Vec::new();
    match &v.fields {
        Fields::Named(fs) => {
            let n = fs.len();
            let mut k: usize = 0;
            while k < n
                invariant
                    i < input.variants@.len(),
                    v == input.variants@[i as int],
                    v.fields == Fields::Named(*fs),
                    n == fs@.len(),
                    k <= n,
                    strs(parts@) =~= Seq::new(
                        k as nat,
                        |j: int| fs@[j].name@ + ": "@ + field_ref(*input, i as int, fs@[j].ty@),
                    ),
                decreases n - k,
            {
                let mut f = fs[k].name.clone();
                f.append(": ");
                f.append(field_ref_text(input, i, &fs[k].ty).as_str());
                let ghost before = parts@;
                parts.push(f);
                assert(strs(parts@) =~= strs(before).push(f@));
                k = k + 1;
            }
            let mut last = aux_name_text(input, i);
            last.append(": ");
            last.append(phantom_type_text(input, i).as_str());
            let ghost before = parts@;
            parts.push(last);
            assert(strs(parts@) =~= strs(before).push(last@));
            let mut s = where_text_of(input);
            s.append(" { ");
            push_join(&mut s, &parts, ", ");
            s.append(" }");
            s
        },
        _ => {
            let ghost tys = positional_types(v.fields);
            let n: usize = match &v.fields {
                Fields::Unnamed(t) => t.len(),
                _ => 0,
            };
            let mut k: usize = 0;
            while k < n
                invariant
                    i < input.variants@.len(),
                    v == input.variants@[i as int],
                    tys == positional_types(v.fields),
                    !(v.fields is Named),
                    n == tys.len(),
                    k <= n,
                    strs(parts@) =~= Seq::new(k as nat, |j: int| field_ref(*input, i as int, tys[j])),
                decreases n - k,
            {
                let f = match &v.fields {
                    Fields::Unnamed(t) => field_ref_text(input, i, &t[k]),
                    _ => String::new(),
                };
                let ghost before = parts@;
                parts.push(f);
                assert(strs(parts@) =~= strs(before).push(f@));
                k = k + 1;
            }
            let last = phantom_type_text(input, i);
            let ghost before = parts@;
            parts.push(last);
            assert(strs(parts@) =~= strs(before).push(last@));
            let mut s = String::from_str("(");
            push_join(&mut s, &parts, ", ");
            s.append(")");
            s.append(where_text_of(input).as_str());
            s.append(";");
            s
        },
    }
}

/// The auxiliary struct of variant `i`, carrying the attribute text `template`.
pub fn aux_struct_text(input: &DeriveInput, i: usize, template: &String) -> (r: String)
    requires
        i < input.variants@.len(),
    ensures
        r@ == aux_struct(*input, i as int, template@),
{
    let mut s = String::from_str(
        "#[::std::prelude::v1::derive(askama::Template, ::std::prelude::v1::Clone, ::std::prelude::v1::Copy, ::std::prelude::v1::Debug)]\n",
    );
    s.append(template.as_str());
    s.append("\nstruct ");
    s.append(aux_name_text(input, i).as_str());
    s.append(angle_text(&ordered_params(&input.generics, true, Some(aux_lifetime_text(input, i)))).as_str());
    s.append(aux_fields_text(input, i).as_str());
    s.append("\n");
    s
}

/// The names the arm of variant `i` binds its fields to.
fn binding_parts(input: &DeriveInput, i: usize) -> (r: Vec<String>)
    requires
        i < input.variants@.len(),
    ensures
        strs(r@) == arm_bindings(*input, i as int),
{
    let v = &input.variants[i];
    let ghost want = arm_bindings(*input, i as int);
    let n: usize = match &v.fields {
        Fields::Named(fs) => fs.len(),
        Fields::Unnamed(t) => t.len(),
        Fields::Unit => 0,
    };
    let mut parts: Vec<String> = Vec::new();
    let mut k: usize = 0;
    while k < n
        invariant
            i < input.variants@.len(),
            v == input.variants@[i as int],
            want == arm_bindings(*input, i as int),
            n == want.len(),
            k <= n,
            strs(parts@) =~= want.take(k as int),
        decreases n - k,
    {
        let f = match &v.fields {
            Fields::Named(fs) => {
                let mut f = fs[k].name.clone();
                f.append(": ");
                f.append(binding_text(k).as_str());
                f
            },
            _ => binding_text(k),
        };
        let ghost before = parts@;
        parts.push(f);
        assert(strs(parts@) =~= strs(before).push(f@));
        assert(want.take(k + 1) =~= want.take(k as int).push(want[k as int]));
        k = k + 1;
    }
    assert(want.take(n as int) =~= want);
    parts
}

/// The arm for variant `i` that calls `method(args)` on its auxiliary value.
pub fn arm_text(input: &DeriveInput, i: usize, method: &str, args: &str) -> (r: String)
    requires
        i < input.variants@.len(),
    ensures
        r@ == arm(*input, i as int, method@, args@),
{
    let v = &input.variants[i];
    let mut parts = binding_parts(input, i);
    let mut pat = String::from_str("Self::");
    pat.append(v.ident.as_str());
    match &v.fields {
        Fields::Unit => {},
        Fields::Unnamed(_) => {
            pat.append("(");
            push_join(&mut pat, &parts, ", ");
            pat.append(")");
        },
        Fields::Named(_) => {
            pat.append(" { ");
            push_join(&mut pat, &parts, ", ");
            pat.append(" }");
        },
    }
    assert(pat@ == arm_pattern(*input, i as int));
    let mut val = aux_name_text(input, i);
    val.append("::");
    val.append(
        angle_text(&ordered_params(&input.generics, false, Some(String::from_str("'_")))).as_str(),
    );
    let ghost before = parts@;
    match &v.fields {
        Fields::Named(_) => {
            let mut last = aux_name_text(input, i);
            last.append(": ");
            last.append("::std::marker::PhantomData");
            parts.push(last);
            assert(strs(parts@) =~= strs(before).push(last@));
            val.append(" { ");
            push_join(&mut val, &parts, ", ");
            val.append(" }");
        },
        _ => {
            let last = String::from_str("::std::marker::PhantomData");
            parts.push(last);
            assert(strs(parts@) =~= strs(before).push(last@));
            assert(strs(before) =~= Seq::new(
                positional_types(v.fields).len(),
                |k: int| binding(k),
            ));
            val.append("(");
            push_join(&mut val, &parts, ", ");
            val.append(")");
        },
    }
    assert(val@ =~= arm_value(*input, i as int));
    let mut s = pat;
    s.append(" => ");
    s.append(val.as_str());
    s.append(".");
    s.append(method);
    s.append("(");
    s.append(args);
    s.append("),\n");
    s
}

} // verus!
