//! What holds of every transformation.

use vstd::prelude::*;
use crate::model::{DataKind, DeriveInput, ExpandError, Variant, error_message};
use crate::extract::{first_template, second_template, effective_template, type_template,
    variant_template};
use crate::text::{decimal, digit_char};
use crate::variant::aux_name;
use crate::expand::{
    default_variant, display_body, display_impl, expand_error, expansion, first_unannotated,
    lemma_variant_prefix, metadata_of, metadata_source, variant_error,
};

verus! {

proof fn lemma_first_unannotated(vs: Seq<Variant>)
    ensures
        -1 <= first_unannotated(vs) < vs.len(),
        first_unannotated(vs) >= 0 ==> first_template(vs[first_unannotated(vs)].attrs@) < 0,
        forall|k: int|
            0 <= k < vs.len() && (first_unannotated(vs) < 0 || k < first_unannotated(vs))
                ==> first_template(#[trigger] vs[k].attrs@) >= 0,
    decreases vs.len(),
{
    if vs.len() > 0 {
        let r = vs.drop_last();
        lemma_first_unannotated(r);
        assert forall|k: int|
            0 <= k < vs.len() && (first_unannotated(vs) < 0 || k < first_unannotated(vs))
                implies first_template(#[trigger] vs[k].attrs@) >= 0 by {
            if k < vs.len() - 1 {
                assert(vs[k] == r[k]);
            }
        }
    }
}

proof fn lemma_no_variant_error(vs: Seq<Variant>, has_default: bool, i: int)
    requires
        variant_error(vs, has_default) is None,
        0 <= i < vs.len(),
    ensures
        second_template(vs[i].attrs@) < 0,
        first_template(vs[i].attrs@) >= 0 || has_default,
    decreases vs.len(),
{
    if i < vs.len() - 1 {
        lemma_no_variant_error(vs.drop_last(), has_default, i);
        assert(vs.drop_last()[i] == vs[i]);
    }
}

proof fn lemma_clean_prefix(vs: Seq<Variant>, has_default: bool, i: int)
    requires
        0 <= i <= vs.len(),
        forall|j: int|
            0 <= j < i ==> second_template(#[trigger] vs[j].attrs@) < 0 && (first_template(
                vs[j].attrs@,
            ) >= 0 || has_default),
    ensures
        variant_error(vs.take(i), has_default) is None,
    decreases i,
{
    if i > 0 {
        lemma_clean_prefix(vs, has_default, i - 1);
        assert(vs.take(i).drop_last() =~= vs.take(i - 1));
        assert(vs.take(i).last() == vs[i - 1]);
    }
}

/// When exactly one variant has no template of its own, the enum's metadata
/// is that variant's, and that variant renders with the enum's template.
pub proof fn law_single_unannotated_is_default(input: DeriveInput, j: int)
    requires
        0 <= j < input.variants@.len(),
        first_template(input.variants@[j].attrs@) < 0,
        forall|k: int|
            0 <= k < input.variants@.len() && k != j ==> first_template(
                #[trigger] input.variants@[k].attrs@,
            ) >= 0,
    ensures
        default_variant(input) == j,
        metadata_source(input) == metadata_of(input, j),
        effective_template(input, j) == type_template(input),
{
    lemma_first_unannotated(input.variants@);
}

/// When every variant has its own template, the enum's metadata is the
/// first variant's.
pub proof fn law_all_annotated_first_is_default(input: DeriveInput)
    requires
        input.variants@.len() > 0,
        forall|k: int|
            0 <= k < input.variants@.len() ==> first_template(
                #[trigger] input.variants@[k].attrs@,
            ) >= 0,
    ensures
        default_variant(input) == 0,
        metadata_source(input) == metadata_of(input, 0),
{
    lemma_first_unannotated(input.variants@);
}

/// In a transformation that succeeds, every variant renders with a
/// template: its own where it has one, else the enum's.
pub proof fn law_variant_template_resolution(input: DeriveInput, i: int)
    requires
        expand_error(input) is None,
        0 <= i < input.variants@.len(),
    ensures
        effective_template(input, i) is Some,
        variant_template(input.variants@[i]) is Some ==> effective_template(input, i)
            == variant_template(input.variants@[i]),
        variant_template(input.variants@[i]) is None ==> effective_template(input, i)
            == type_template(input),
{
    lemma_no_variant_error(input.variants@, first_template(input.attrs@) >= 0, i);
}

/// The `Display` adapter of every expansion forwards to `render_into`.
pub proof fn law_display_forwards_to_render_into(input: DeriveInput)
    ensures
        exists|k: int|
            0 <= k && k + display_body().len() <= expansion(input).len() && #[trigger] expansion(
                input,
            ).subrange(k, k + display_body().len()) == display_body(),
{
    let e = expansion(input);
    let d = display_impl(input);
    let pre = e.len() - "};\n"@.len() - d.len();
    let before = display_impl(input).len() - "\n}\n}\n"@.len() - display_body().len();
    let k = pre + before;
    assert(e.subrange(k, k + display_body().len()) =~= display_body());
}

/// A second `#[template]` on an enum is refused, whatever its variants.
pub proof fn law_duplicate_type_annotation(input: DeriveInput)
    requires
        input.kind == DataKind::Enum,
        second_template(input.attrs@) >= 0,
    ensures
        expand_error(input) == Some(
            ExpandError::DuplicateTypeTemplate { attr: second_template(input.attrs@) as usize },
        ),
        error_message(expand_error(input)->Some_0)
            == "cannot have more than one #[template] attribute for a type"@,
{
}

/// The first variant that has two `#[template]` annotations, or none while
/// the enum gives no default, is refused with the matching error.
pub proof fn law_variant_annotation_errors(input: DeriveInput, i: int)
    requires
        input.kind == DataKind::Enum,
        second_template(input.attrs@) < 0,
        0 <= i < input.variants@.len(),
        forall|j: int|
            0 <= j < i ==> second_template(#[trigger] input.variants@[j].attrs@) < 0 && (
            first_template(input.variants@[j].attrs@) >= 0 || first_template(input.attrs@)
                >= 0),
    ensures
        second_template(input.variants@[i].attrs@) >= 0 ==> expand_error(input) == Some(
            ExpandError::DuplicateVariantTemplate {
                variant: i as usize,
                attr: second_template(input.variants@[i].attrs@) as usize,
            },
        ),
        second_template(input.variants@[i].attrs@) >= 0 ==> error_message(
            expand_error(input)->Some_0,
        ) == "cannot have more than one #[template] attribute for a variant"@,
        second_template(input.variants@[i].attrs@) < 0 && first_template(
            input.variants@[i].attrs@,
        ) < 0 && first_template(input.attrs@) < 0 ==> expand_error(input) == Some(
            ExpandError::MissingTemplate { variant: i as usize },
        ),
        second_template(input.variants@[i].attrs@) < 0 && first_template(
            input.variants@[i].attrs@,
        ) < 0 && first_template(input.attrs@) < 0 ==> error_message(expand_error(input)->Some_0)
            == "need a #[template] attribute"@,
{
    let vs = input.variants@;
    let hd = first_template(input.attrs@) >= 0;
    lemma_clean_prefix(vs, hd, i);
    assert(vs.take(i + 1).drop_last() =~= vs.take(i));
    assert(vs.take(i + 1).last() == vs[i]);
    lemma_variant_prefix(vs, i + 1, hd);
}

proof fn lemma_decimal_shape(n: nat)
    ensures
        decimal(n).len() >= 1,
        n >= 10 ==> decimal(n).len() >= 2,
        forall|k: int| 0 <= k < decimal(n).len() ==> #[trigger] decimal(n)[k] != '_',
    decreases n,
{
    if n >= 10 {
        lemma_decimal_shape(n / 10);
        let d = decimal(n / 10);
        assert forall|k: int| 0 <= k < decimal(n).len() implies #[trigger] decimal(n)[k] != '_' by {
            if k < d.len() {
                assert(decimal(n)[k] == d[k]);
            }
        }
    }
}

proof fn lemma_digit_injective(a: nat, b: nat)
    requires
        a < 10,
        b < 10,
        digit_char(a) == digit_char(b),
    ensures
        a == b,
{
}

proof fn lemma_decimal_injective(a: nat, b: nat)
    requires
        decimal(a) == decimal(b),
    ensures
        a == b,
    decreases a,
{
    lemma_decimal_shape(a);
    lemma_decimal_shape(b);
    if a >= 10 && b >= 10 {
        assert(decimal(a).drop_last() =~= decimal(a / 10));
        assert(decimal(b).drop_last() =~= decimal(b / 10));
        lemma_decimal_injective(a / 10, b / 10);
        assert(decimal(a).last() == digit_char(a % 10));
        assert(decimal(b).last() == digit_char(b % 10));
        lemma_digit_injective(a % 10, b % 10);
    } else if a < 10 && b < 10 {
        assert(decimal(a) == seq![digit_char(a)]);
        assert(decimal(b) == seq![digit_char(b)]);
        assert(decimal(a)[0] == digit_char(a));
        assert(decimal(b)[0] == digit_char(b));
        lemma_digit_injective(a, b);
    }
}

/// Distinct variants of one enum get distinct auxiliary struct names.
pub proof fn law_aux_names_distinct(input: DeriveInput, i: int, j: int)
    requires
        0 <= i < input.variants@.len(),
        0 <= j < input.variants@.len(),
        i != j,
    ensures
        aux_name(input, i) != aux_name(input, j),
{
    reveal_strlit("_");
    let p = "_"@ + input.ident@ + "_"@;
    let di = decimal(i as nat);
    let dj = decimal(j as nat);
    let ni = aux_name(input, i);
    let nj = aux_name(input, j);
    assert(ni =~= p + di + "_"@ + input.variants@[i].ident@);
    assert(nj =~= p + dj + "_"@ + input.variants@[j].ident@);
    lemma_decimal_shape(i as nat);
    lemma_decimal_shape(j as nat);
    if ni == nj {
        let m: int = p.len() as int;
        if di.len() < dj.len() {
            assert(ni[m + di.len() as int] == '_');
            assert(nj[m + di.len() as int] == dj[di.len() as int]);
        } else if dj.len() < di.len() {
            assert(nj[m + dj.len() as int] == '_');
            assert(ni[m + dj.len() as int] == di[dj.len() as int]);
        } else {
            assert(ni.subrange(m, m + di.len() as int) =~= di);
            assert(nj.subrange(m, m + dj.len() as int) =~= dj);
            lemma_decimal_injective(i as nat, j as nat);
        }
    }
}

} // verus!
