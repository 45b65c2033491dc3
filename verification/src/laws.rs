//! What holds of every artifact and of every record that fits one.

use crate::artifact::GeneratedArtifact;
use crate::conversion::{converts, leads, lemma_group_goes_by_type, same_type, Conversion};
use crate::lookup::LookupError;
use crate::record::{copies_exactly, reads, written};
use crate::types::name_set;
use crate::variant::{FieldVariant, ValueVariant};
use vstd::prelude::*;

verus! {

broadcast use crate::variant::lemma_variants_cover;

impl GeneratedArtifact {
    /// Whether no earlier variant goes by a name of `field`.
    pub open spec fn unshadowed(&self, field: FieldVariant) -> bool {
        forall|j: int|
            0 <= j < field.ordinal ==> {
                &&& !#[trigger] self.answers(j, self.field_of(field).identifier@)
                &&& !self.answers(j, self.field_of(field).label())
            }
    }

    /// Whether the two names of `field` lead to one variant: the first
    /// variant that goes by either of them goes by both.
    pub open spec fn names_meet(&self, field: FieldVariant) -> bool {
        let identifier = self.field_of(field).identifier@;
        let label = self.field_of(field).label();
        forall|j: int|
            0 <= j <= field.ordinal && (#[trigger] self.answers(j, identifier) || self.answers(
                j,
                label,
            )) && (forall|i: int|
                0 <= i < j ==> !#[trigger] self.answers(i, identifier) && !self.answers(i, label))
                ==> self.answers(j, identifier) && self.answers(j, label)
    }
}

/// Writing back what was read from a field leaves every other field as it
/// was, and the field itself with a copy of what it held. So where copies
/// of the payload type equal what they were made from, no value of the
/// record changes.
pub proof fn round_trip<P: Clone>(
    artifact: &GeneratedArtifact,
    values: Seq<P>,
    field: FieldVariant,
    value: ValueVariant<P>,
)
    requires
        artifact.wf(),
        values.len() == artifact.schema.fields.len(),
        artifact.declares(field),
        reads(artifact, values, field, value),
    ensures
        written(artifact, values, value).len() == values.len(),
        forall|i: int|
            0 <= i < values.len() && i != artifact.source(field) ==> written(
                artifact,
                values,
                value,
            )[i] == values[i],
        cloned(
            values[artifact.source(field)],
            written(artifact, values, value)[artifact.source(field)],
        ),
        copies_exactly::<P>() ==> written(artifact, values, value) == values,
{
}

/// Strings, integers, booleans and characters are copied exactly, so a
/// record of such values is unchanged by writing back what was read.
pub proof fn plain_values_copy_exactly()
    ensures
        copies_exactly::<String>(),
        copies_exactly::<bool>(),
        copies_exactly::<char>(),
        copies_exactly::<u8>(),
        copies_exactly::<u16>(),
        copies_exactly::<u32>(),
        copies_exactly::<u64>(),
        copies_exactly::<u128>(),
        copies_exactly::<usize>(),
        copies_exactly::<i8>(),
        copies_exactly::<i16>(),
        copies_exactly::<i32>(),
        copies_exactly::<i64>(),
        copies_exactly::<i128>(),
        copies_exactly::<isize>(),
{
}

/// The field enumeration lists the fields that are not skipped, each once,
/// in the order of their declaration; no skipped field is among them.
pub proof fn fields_keep_declaration_order(artifact: &GeneratedArtifact)
    requires
        artifact.wf(),
    ensures
        artifact.field_variants.len() == artifact.variants.len(),
        forall|k: int|
            0 <= k < artifact.field_variants.len() ==> {
                let field = #[trigger] artifact.field_variants@[k];
                &&& artifact.declares(field)
                &&& 0 <= artifact.source(field) < artifact.schema.fields.len()
                &&& !artifact.field_of(field).skip
            },
        forall|j: int, k: int|
            0 <= j < k < artifact.field_variants.len() ==> artifact.source(
                #[trigger] artifact.field_variants@[j],
            ) < artifact.source(#[trigger] artifact.field_variants@[k]),
        forall|i: int|
            0 <= i < artifact.schema.fields.len() && !(#[trigger] artifact.schema.fields@[i]).skip
                ==> exists|k: int|
                0 <= k < artifact.field_variants.len() && artifact.source(
                    #[trigger] artifact.field_variants@[k],
                ) == i,
{
    assert forall|i: int|
        0 <= i < artifact.schema.fields.len() && !(#[trigger] artifact.schema.fields@[i]).skip implies exists|
        k: int,
    |
        0 <= k < artifact.field_variants.len() && artifact.source(
            #[trigger] artifact.field_variants@[k],
        ) == i by {
        let k = choose|k: int|
            0 <= k < artifact.variants.len() && (#[trigger] artifact.variants@[k]).source_field
                == i;
        assert(artifact.source(artifact.field_variants@[k]) == i);
    }
}

/// Both names of a field resolve: its identifier and its label. Each
/// resolves to the first variant that goes by it, so the two results are one
/// variant exactly when the first variant that goes by either name goes by
/// both; where no earlier variant goes by either, both are the field's own
/// variant.
pub proof fn names_resolve(
    artifact: &GeneratedArtifact,
    field: FieldVariant,
    by_identifier: Result<FieldVariant, LookupError>,
    by_label: Result<FieldVariant, LookupError>,
)
    requires
        artifact.wf(),
        artifact.declares(field),
        artifact.resolves_to(artifact.field_of(field).identifier@, by_identifier),
        artifact.resolves_to(artifact.field_of(field).label(), by_label),
    ensures
        by_identifier is Ok,
        by_label is Ok,
        by_identifier == by_label <==> artifact.names_meet(field),
        artifact.unshadowed(field) ==> by_identifier == Ok::<FieldVariant, LookupError>(field)
            && by_label == Ok::<FieldVariant, LookupError>(field),
{
    let identifier = artifact.field_of(field).identifier@;
    let label = artifact.field_of(field).label();
    // The field goes by both names, so each resolves: to the field or to an
    // earlier variant.
    assert(artifact.answers(field.ordinal as int, identifier));
    assert(artifact.answers(field.ordinal as int, label));
    let a = by_identifier->Ok_0.ordinal as int;
    let b = by_label->Ok_0.ordinal as int;
    if artifact.names_meet(field) && b < a {
        assert(artifact.answers(b, identifier));
    }
}

/// A name that is neither the identifier nor the label of a field that is
/// not skipped resolves to nothing: the failure carries the name.
pub proof fn other_names_fail(
    artifact: &GeneratedArtifact,
    name: Seq<char>,
    found: Result<FieldVariant, LookupError>,
)
    requires
        artifact.wf(),
        artifact.resolves_to(name, found),
        forall|k: int| 0 <= k < artifact.variants.len() ==> !artifact.answers(k, name),
    ensures
        found matches Err(LookupError::NotFound(n)) && n@ == name,
{
}

/// A conversion takes a tagged value of its type apart and puts it together
/// again: unwrapping gives the payload, and wrapping the payload for the
/// same field gives the tagged value back.
pub proof fn conversion_round_trip<P>(conversion: Conversion, value: ValueVariant<P>)
    requires
        conversion.accepts(value.field),
    ensures
        conversion.raw_of(value) == Ok::<P, ValueVariant<P>>(value.payload),
        conversion.value_of(value.field, value.payload) == Ok::<ValueVariant<P>, FieldVariant>(
            value,
        ),
{
}

/// A conversion goes by type, not by field: it accepts a variant exactly
/// when the variant's field has the conversion's type. So it unwraps the
/// value of any field of its type, and it hands a value of another type
/// back unchanged, as it hands back the field when asked to wrap for it.
pub proof fn conversion_goes_by_type<P>(
    artifact: &GeneratedArtifact,
    c: int,
    value: ValueVariant<P>,
)
    requires
        artifact.wf(),
        0 <= c < artifact.conversions.len(),
        artifact.declares(value.field),
    ensures
        artifact.conversions@[c].accepts(value.field) <==> artifact.conversion_type(c).same_as(
            &artifact.field_of(value.field).ty,
        ),
        artifact.conversion_type(c).same_as(&artifact.field_of(value.field).ty)
            ==> artifact.conversions@[c].raw_of(value) == Ok::<P, ValueVariant<P>>(value.payload),
        !artifact.conversion_type(c).same_as(&artifact.field_of(value.field).ty) ==> {
            &&& artifact.conversions@[c].raw_of(value) == Err::<P, ValueVariant<P>>(value)
            &&& artifact.conversions@[c].value_of(value.field, value.payload) == Err::<
                ValueVariant<P>,
                FieldVariant,
            >(value.field)
        },
{
    lemma_group_goes_by_type(
        artifact.conversions@[c],
        artifact.variants@,
        artifact.schema.fields@,
        artifact.lead(c),
        value.field,
    );
}

/// No two conversions of an artifact have the same type.
pub proof fn conversions_differ(artifact: &GeneratedArtifact, c: int, d: int)
    requires
        artifact.wf(),
        0 <= c < d < artifact.conversions.len(),
    ensures
        !artifact.conversion_type(c).same_as(&artifact.conversion_type(d)),
{
    // The later conversion is led by the first variant of its type.
    assert(!same_type(
        artifact.variants@,
        artifact.schema.fields@,
        artifact.lead(c),
        artifact.lead(d),
    ));
}

/// Every field that is not skipped and whose type depends on no type
/// parameter has a conversion: the one of its type, which accepts it. A
/// type that depends on a type parameter has none.
pub proof fn conversions_are_complete(artifact: &GeneratedArtifact, field: FieldVariant)
    requires
        artifact.wf(),
        artifact.schema.coherent(),
        artifact.declares(field),
    ensures
        !artifact.field_of(field).ty.mentions(name_set(artifact.schema.generic_parameters@))
            <==> exists|c: int|
            0 <= c < artifact.conversions.len() && (#[trigger] artifact.conversions@[c]).accepts(
                field,
            ),
{
    let variants = artifact.variants@;
    let fields = artifact.schema.fields@;
    let generics = name_set(artifact.schema.generic_parameters@);
    let k = field.ordinal as int;
    if !artifact.field_of(field).ty.mentions(generics) {
        // The first variant of the field's type depends on the type
        // parameters as the field does, so it leads a conversion, and the
        // field is of that conversion's type.
        let first = first_of_type(artifact, k);
        assert(converts(variants, fields, generics, first));
    }
}

/// Asking for the conversion of a field's type gives one exactly when the
/// type depends on no type parameter, and that conversion accepts the field.
/// A field whose type is a type parameter has no conversion.
pub proof fn conversion_is_found(
    artifact: &GeneratedArtifact,
    field: FieldVariant,
    conversion: Option<&Conversion>,
)
    requires
        artifact.wf(),
        artifact.schema.coherent(),
        artifact.declares(field),
        artifact.converts_by(&artifact.field_of(field).ty, conversion),
    ensures
        conversion is Some <==> !artifact.field_of(field).ty.mentions(
            name_set(artifact.schema.generic_parameters@),
        ),
        conversion matches Some(found) ==> found.accepts(field),
{
    let variants = artifact.variants@;
    let fields = artifact.schema.fields@;
    let generics = name_set(artifact.schema.generic_parameters@);
    let k = field.ordinal as int;
    if conversion is None {
        // The first variant of the field's type leads no conversion, so it
        // depends on a type parameter, and the field with it.
        let first = first_of_type(artifact, k);
        assert(!converts(variants, fields, generics, first));
    }
}

/// The first variant that has the type of variant `k`.
proof fn first_of_type(artifact: &GeneratedArtifact, k: int) -> (first: int)
    requires
        0 <= k < artifact.variants.len(),
    ensures
        0 <= first <= k,
        same_type(artifact.variants@, artifact.schema.fields@, first, k),
        leads(artifact.variants@, artifact.schema.fields@, first),
    decreases k,
{
    let variants = artifact.variants@;
    let fields = artifact.schema.fields@;
    if leads(variants, fields, k) {
        k
    } else {
        let j = choose|j: int| 0 <= j < k && #[trigger] same_type(variants, fields, j, k);
        first_of_type(artifact, j)
    }
}

/// A skipped field is in neither enumeration, so it is not listed and not
/// read with the others, and no name resolves to it.
pub proof fn skipped_fields_are_absent(artifact: &GeneratedArtifact, i: int)
    requires
        artifact.wf(),
        0 <= i < artifact.schema.fields.len(),
        artifact.schema.fields@[i].skip,
    ensures
        forall|k: int|
            0 <= k < artifact.variants.len() ==> (#[trigger] artifact.variants@[k]).source_field
                != i,
        forall|k: int|
            0 <= k < artifact.field_variants.len() ==> artifact.source(
                #[trigger] artifact.field_variants@[k],
            ) != i,
        forall|name: Seq<char>, found: Result<FieldVariant, LookupError>|
            #[trigger] artifact.resolves_to(name, found) && found is Ok ==> artifact.source(
                found->Ok_0,
            ) != i,
{
}

} // verus!
