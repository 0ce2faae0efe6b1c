//! Finding the `#[template]` annotations of the type and of each variant.

use vstd::prelude::*;
use crate::model::{Attribute, DeriveInput, Variant};

verus! {

/// An attribute is a template annotation when it is a list named `template`.
pub open spec fn is_template(a: Attribute) -> bool {
    a.is_list && a.path@ == "template"@
}

/// Index of the first template annotation, or -1 when there is none.
pub open spec fn first_template(attrs: Seq<Attribute>) -> int
    decreases attrs.len(),
{
    if attrs.len() == 0 {
        -1
    } else {
        let k = first_template(attrs.drop_last());
        if k >= 0 {
            k
        } else if is_template(attrs.last()) {
            attrs.len() - 1
        } else {
            -1
        }
    }
}

/// Index of the second template annotation, or -1 when there is none.
pub open spec fn second_template(attrs: Seq<Attribute>) -> int
    decreases attrs.len(),
{
    if attrs.len() == 0 {
        -1
    } else {
        let k = second_template(attrs.drop_last());
        if k >= 0 {
            k
        } else if first_template(attrs.drop_last()) >= 0 && is_template(attrs.last()) {
            attrs.len() - 1
        } else {
            -1
        }
    }
}

/// The template annotation of a scope, if it has one.
pub open spec fn template_of(attrs: Seq<Attribute>) -> Option<Attribute> {
    let k = first_template(attrs);
    if k >= 0 {
        Some(attrs[k])
    } else {
        None
    }
}

/// The type's own template annotation, the default of its variants.
pub open spec fn type_template(input: DeriveInput) -> Option<Attribute> {
    template_of(input.attrs@)
}

/// A variant's own template annotation.
pub open spec fn variant_template(v: Variant) -> Option<Attribute> {
    template_of(v.attrs@)
}

/// The template a variant is rendered with: its own, else the type's.
pub open spec fn effective_template(input: DeriveInput, i: int) -> Option<Attribute> {
    match variant_template(input.variants@[i]) {
        Some(a) => Some(a),
        None => type_template(input),
    }
}

proof fn lemma_prefix_fixes(attrs: Seq<Attribute>, j: int)
    requires
        0 <= j <= attrs.len(),
    ensures
        first_template(attrs.take(j)) >= 0 ==> first_template(attrs) == first_template(
            attrs.take(j),
        ),
        second_template(attrs.take(j)) >= 0 ==> second_template(attrs) == second_template(
            attrs.take(j),
        ),
    decreases attrs.len() - j,
{
    if j < attrs.len() {
        lemma_prefix_fixes(attrs, j + 1);
        assert(attrs.take(j + 1).drop_last() =~= attrs.take(j));
    } else {
        assert(attrs.take(j) =~= attrs);
    }
}

/// Scans a scope's attributes for template annotations.
///
/// `Ok(Some(k))`: attribute `k` is the only one; `Ok(None)`: there is none;
/// `Err(k)`: attribute `k` is the second one.
pub fn find_template(attrs: &Vec<Attribute>) -> (r: Result<Option<usize>, usize>)
    ensures
        match r {
            Ok(Some(k)) => second_template(attrs@) < 0 && first_template(attrs@) == k && k
                < attrs@.len(),
            Ok(None) => second_template(attrs@) < 0 && first_template(attrs@) < 0,
            Err(k) => second_template(attrs@) == k && k < attrs@.len(),
        },
{
    let template = String::from_str("template");
    proof {
        reveal_strlit("template");
    }
    let n = attrs.len();
    let mut found: Option<usize> = None;
    let mut i: usize = 0;
    while i < n
        invariant
            n == attrs@.len(),
            i <= n,
            template@ == "template"@,
            second_template(attrs@.take(i as int)) < 0,
            match found {
                Some(k) => first_template(attrs@.take(i as int)) == k && k < i,
                None => first_template(attrs@.take(i as int)) < 0,
            },
        decreases n - i,
    {
        let a = &attrs[i];
        assert(attrs@.take(i + 1).drop_last() =~= attrs@.take(i as int));
        assert(attrs@.take(i + 1).last() == attrs@[i as int]);
        if a.is_list && a.path == template {
            match found {
                Some(_) => {
                    proof {
                        lemma_prefix_fixes(attrs@, i + 1);
                    }
                    return Err(i);
                },
                None => {
                    found = Some(i);
                },
            }
        }
        i = i + 1;
    }
    assert(attrs@.take(n as int) =~= attrs@);
    Ok(found)
}

} // verus!
