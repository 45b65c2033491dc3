//! Variants: the cases that the two enumerations have for a record's fields.

use crate::naming::{pascal_case, to_pascal_case};
use crate::schema::FieldSpec;
use vstd::prelude::*;

verus! {

/// A case of the field enumeration: it names one field and carries nothing.
#[derive(Clone, Copy, Debug, PartialEq, Eq, Hash, Structural)]
pub struct FieldVariant {
    /// The position of the case in the enumeration.
    pub ordinal: usize,
}

/// A case of the value enumeration: it names one field and carries a value
/// of that field's type.
#[derive(Clone, Debug, PartialEq, Eq)]
pub struct ValueVariant<P> {
    /// The field that the value belongs to.
    pub field: FieldVariant,
    /// The value.
    pub payload: P,
}

/// What the two enumerations have for one field that is not skipped. The
/// cases of both enumerations bear the same label, so they are paired by
/// construction.
pub struct Variant {
    /// The name of the case.
    pub label: String,
    /// The position of the field in the schema.
    pub source_field: usize,
}

impl FieldSpec {
    /// The label of the field's variant: the rename as it is where there is
    /// one, the identifier in capitalized-word-join form otherwise.
    pub open spec fn label(&self) -> Seq<char> {
        match self.rename {
            Some(r) => r@,
            None => pascal_case(self.identifier@),
        }
    }

    /// The names by which the field is found: its identifier, and its label
    /// where that differs.
    pub open spec fn keys(&self) -> Seq<Seq<char>> {
        if self.label() == self.identifier@ {
            seq![self.identifier@]
        } else {
            seq![self.identifier@, self.label()]
        }
    }
}

/// The label of a field's variant.
pub fn variant_label(field: &FieldSpec) -> (label: String)
    ensures
        label@ == field.label(),
{
    match &field.rename {
        Some(r) => r.clone(),
        None => to_pascal_case(field.identifier.as_str()),
    }
}

/// The positions of the fields that are not skipped, in declaration order.
pub open spec fn kept(fields: Seq<FieldSpec>) -> Seq<int>
    decreases fields.len(),
{
    if fields.len() == 0 {
        Seq::empty()
    } else if fields.last().skip {
        kept(fields.drop_last())
    } else {
        kept(fields.drop_last()).push(fields.len() - 1)
    }
}

/// Whether `variants` are the variants of `fields`: one for each field that
/// is not skipped, in declaration order, with the field's label.
pub open spec fn variants_of(variants: Seq<Variant>, fields: Seq<FieldSpec>) -> bool {
    &&& variants.len() == kept(fields).len()
    &&& forall|k: int|
        0 <= k < variants.len() ==> {
            &&& (#[trigger] variants[k]).source_field == kept(fields)[k]
            &&& variants[k].label@ == fields[kept(fields)[k]].label()
        }
}

/// Whether each of `variants` stands for a field of `fields` that is not
/// skipped, later variants for later fields, and no such field is left out.
pub open spec fn variants_cover(variants: Seq<Variant>, fields: Seq<FieldSpec>) -> bool {
    &&& forall|k: int|
        0 <= k < variants.len() ==> {
            let s = (#[trigger] variants[k]).source_field as int;
            &&& 0 <= s < fields.len()
            &&& !fields[s].skip
            &&& variants[k].label@ == fields[s].label()
        }
    &&& forall|j: int, k: int|
        0 <= j < k < variants.len() ==> (#[trigger] variants[j]).source_field < (
        #[trigger] variants[k]).source_field
    &&& forall|i: int|
        0 <= i < fields.len() && !(#[trigger] fields[i]).skip ==> exists|k: int|
            0 <= k < variants.len() && (#[trigger] variants[k]).source_field == i
}

/// The kept positions are positions of fields that are not skipped; they
/// ascend; and every field that is not skipped is among them.
pub proof fn lemma_kept(fields: Seq<FieldSpec>)
    ensures
        forall|k: int|
            0 <= k < kept(fields).len() ==> 0 <= (#[trigger] kept(fields)[k]) < fields.len()
                && !fields[kept(fields)[k]].skip,
        forall|j: int, k: int|
            0 <= j < k < kept(fields).len() ==> (#[trigger] kept(fields)[j]) < (#[trigger] kept(
                fields,
            )[k]),
        forall|i: int|
            0 <= i < fields.len() && !(#[trigger] fields[i]).skip ==> kept(fields).contains(i),
    decreases fields.len(),
{
    if fields.len() > 0 {
        let rest = fields.drop_last();
        lemma_kept(rest);
        let last = fields.len() - 1;
        assert forall|i: int| 0 <= i < fields.len() && !(#[trigger] fields[i]).skip implies kept(
            fields,
        ).contains(i) by {
            if i < last {
                assert(!rest[i].skip);
                let k = choose|k: int| 0 <= k < kept(rest).len() && kept(rest)[k] == i;
                assert(kept(fields)[k] == i);
            } else {
                assert(kept(fields)[kept(rest).len() as int] == i);
            }
        }
    }
}

/// The variants of a list of fields cover it.
pub broadcast proof fn lemma_variants_cover(variants: Seq<Variant>, fields: Seq<FieldSpec>)
    requires
        #[trigger] variants_of(variants, fields),
    ensures
        variants_cover(variants, fields),
{
    lemma_kept(fields);
    assert forall|i: int| 0 <= i < fields.len() && !(#[trigger] fields[i]).skip implies exists|
        k: int,
    |
        0 <= k < variants.len() && (#[trigger] variants[k]).source_field == i by {
        let k = choose|k: int| 0 <= k < kept(fields).len() && kept(fields)[k] == i;
        assert(variants[k].source_field == i);
    }
}

/// Builds the variants of a record's fields: one for each field that is not
/// skipped, in declaration order.
pub fn build_variants(fields: &Vec<FieldSpec>) -> (variants: Vec<Variant>)
    ensures
        variants_of(variants@, fields@),
{
    let mut variants: Vec<Variant> = Vec::new();
    let mut i: usize = 0;
    while i < fields.len()
        invariant
            i <= fields.len(),
            variants_of(variants@, fields@.take(i as int)),
        decreases fields.len() - i,
    {
        let field = &fields[i];
        proof {
            let before = fields@.take(i as int);
            let after = fields@.take(i + 1);
            assert(after.drop_last() =~= before);
            lemma_kept(before);
        }
        if !field.skip {
            let label = variant_label(field);
            variants.push(Variant { label, source_field: i });
        }
        i += 1;
    }
    assert(fields@.take(fields.len() as int) =~= fields@);
    variants
}

} // verus!
