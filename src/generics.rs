//! The generic parameter lists that the generated code writes.

use vstd::prelude::*;
use crate::model::{DeriveInput, GenericKind, GenericParam};
use crate::text::{join, strs, push_join};

verus! {

/// A parameter as declared, with its bounds.
pub open spec fn param_decl(p: GenericParam) -> Seq<char> {
    if p.kind == GenericKind::Const {
        "const "@ + p.name@ + ": "@ + p.bounds@
    } else if p.bounds@.len() == 0 {
        p.name@
    } else {
        p.name@ + ": "@ + p.bounds@
    }
}

/// The declarations (`decl`) or names of the lifetime parameters
/// (`lifetimes`) or of the other parameters, in declaration order.
pub open spec fn param_texts(gs: Seq<GenericParam>, lifetimes: bool, decl: bool) -> Seq<Seq<char>>
    decreases gs.len(),
{
    if gs.len() == 0 {
        Seq::empty()
    } else {
        let r = param_texts(gs.drop_last(), lifetimes, decl);
        let p = gs.last();
        if (p.kind == GenericKind::Lifetime) == lifetimes {
            r.push(
                if decl {
                    param_decl(p)
                } else {
                    p.name@
                },
            )
        } else {
            r
        }
    }
}

/// `<a, b>`, or nothing for no parts.
pub open spec fn angle(parts: Seq<Seq<char>>) -> Seq<char> {
    if parts.len() == 0 {
        Seq::empty()
    } else {
        "<"@ + join(parts, ", "@) + ">"@
    }
}

/// The parameters of an impl of the type: lifetimes first, with bounds.
pub open spec fn impl_generics(input: DeriveInput) -> Seq<char> {
    angle(param_texts(input.generics@, true, true) + param_texts(input.generics@, false, true))
}

/// The type's arguments as the impl names them.
pub open spec fn type_generics(input: DeriveInput) -> Seq<char> {
    angle(param_texts(input.generics@, true, false) + param_texts(input.generics@, false, false))
}

/// The type's name applied to its own parameters.
pub open spec fn self_type(input: DeriveInput) -> Seq<char> {
    input.ident@ + type_generics(input)
}

/// The where clause with a leading space, or nothing.
pub open spec fn where_text(input: DeriveInput) -> Seq<char> {
    if input.where_clause@.len() == 0 {
        Seq::empty()
    } else {
        " "@ + input.where_clause@
    }
}

pub fn param_decl_text(p: &GenericParam) -> (r: String)
    ensures
        r@ == param_decl(*p),
{
    if p.kind == GenericKind::Const {
        let mut s = String::from_str("const ");
        s.append(p.name.as_str());
        s.append(": ");
        s.append(p.bounds.as_str());
        s
    } else if p.bounds.as_str().is_empty() {
        p.name.clone()
    } else {
        let mut s = p.name.clone();
        s.append(": ");
        s.append(p.bounds.as_str());
        s
    }
}

/// Appends the strings of `src` to `dst`.
pub fn extend_strings(dst: &mut Vec<String>, src: &Vec<String>)
    ensures
        strs(final(dst)@) == strs(old(dst)@) + strs(src@),
{
    let ghost start = dst@;
    let n = src.len();
    let mut i: usize = 0;
    while i < n
        invariant
            n == src@.len(),
            i <= n,
            strs(dst@) =~= strs(start) + strs(src@.take(i as int)),
        decreases n - i,
    {
        let ghost before = dst@;
        let c = src[i].clone();
        dst.push(c);
        assert(strs(dst@) =~= strs(before).push(c@));
        assert(strs(src@.take(i + 1)) =~= strs(src@.take(i as int)).push(src@[i as int]@));
        i = i + 1;
    }
    assert(src@.take(n as int) =~= src@);
}

/// The texts of `param_texts(gs, lifetimes, decl)`.
pub fn param_parts(gs: &Vec<GenericParam>, lifetimes: bool, decl: bool) -> (r: Vec<String>)
    ensures
        strs(r@) == param_texts(gs@, lifetimes, decl),
{
    let mut r: Vec<String> = Vec::new();
    let n = gs.len();
    let mut i: usize = 0;
    while i < n
        invariant
            n == gs@.len(),
            i <= n,
            strs(r@) =~= param_texts(gs@.take(i as int), lifetimes, decl),
        decreases n - i,
    {
        let p = &gs[i];
        assert(gs@.take(i + 1).drop_last() =~= gs@.take(i as int));
        assert(gs@.take(i + 1).last() == gs@[i as int]);
        if (p.kind == GenericKind::Lifetime) == lifetimes {
            let t = if decl {
                param_decl_text(p)
            } else {
                p.name.clone()
            };
            r.push(t);
        }
        i = i + 1;
    }
    assert(gs@.take(n as int) =~= gs@);
    r
}

pub fn angle_text(parts: &Vec<String>) -> (r: String)
    ensures
        r@ == angle(strs(parts@)),
{
    if parts.len() == 0 {
        String::new()
    } else {
        let mut s = String::from_str("<");
        push_join(&mut s, parts, ", ");
        s.append(">");
        s
    }
}

/// Names or declarations of all parameters, lifetimes first, with
/// `extra` after the lifetimes when given.
pub fn ordered_params(gs: &Vec<GenericParam>, decl: bool, extra: Option<String>) -> (r: Vec<String>)
    ensures
        strs(r@) == match extra {
            Some(e) => param_texts(gs@, true, decl).push(e@) + param_texts(gs@, false, decl),
            None => param_texts(gs@, true, decl) + param_texts(gs@, false, decl),
        },
{
    let mut r = param_parts(gs, true, decl);
    match extra {
        Some(e) => {
            let ghost before = r@;
            r.push(e);
            assert(strs(r@) =~= strs(before).push(e@));
        },
        None => {},
    }
    let rest = param_parts(gs, false, decl);
    extend_strings(&mut r, &rest);
    r
}

pub fn impl_generics_text(input: &DeriveInput) -> (r: String)
    ensures
        r@ == impl_generics(*input),
{
    angle_text(&ordered_params(&input.generics, true, None))
}

pub fn self_type_text(input: &DeriveInput) -> (r: String)
    ensures
        r@ == self_type(*input),
{
    let mut s = input.ident.clone();
    s.append(angle_text(&ordered_params(&input.generics, false, None)).as_str());
    s
}

pub fn where_text_of(input: &DeriveInput) -> (r: String)
    ensures
        r@ == where_text(*input),
{
    if input.where_clause.as_str().is_empty() {
        String::new()
    } else {
        let mut s = String::from_str(" ");
        s.append(input.where_clause.as_str());
        s
    }
}

} // verus!
