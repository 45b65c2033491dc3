//! Instances of a record, read and written through the two enumerations.

use crate::artifact::{lists_cases, GeneratedArtifact};
use crate::variant::{FieldVariant, ValueVariant};
use vstd::prelude::*;

verus! {

broadcast use crate::variant::lemma_variants_cover;

/// An instance of a record: the values of its fields, beside the artifact
/// that was generated for the record.
pub struct Record<'a, P> {
    /// The artifact of the record.
    pub artifact: &'a GeneratedArtifact,
    /// The values of the fields, one for each declared field, skipped ones
    /// included, in declaration order.
    pub values: Vec<P>,
}

/// Whether a copy of a value of type `P` always equals the value. This holds
/// of strings, integers and the other plain types; the library asks it of no
/// payload type.
pub open spec fn copies_exactly<P: Clone>() -> bool {
    forall|a: P, b: P| #[trigger] cloned(a, b) ==> a == b
}

/// Whether `value` is what reading `field` from `values` gives: the tagged
/// value of that field, carrying a copy of the field's value.
pub open spec fn reads<P: Clone>(
    artifact: &GeneratedArtifact,
    values: Seq<P>,
    field: FieldVariant,
    value: ValueVariant<P>,
) -> bool {
    &&& value.field == field
    &&& cloned(values[artifact.source(field)], value.payload)
}

/// The values of a record after `value` is written to its field: the
/// payload stands in the field's place, and every other field is as before.
pub open spec fn written<P>(artifact: &GeneratedArtifact, values: Seq<P>, value: ValueVariant<P>) -> Seq<
    P,
> {
    values.update(artifact.source(value.field), value.payload)
}

impl<'a, P: Clone> Record<'a, P> {
    /// Whether the instance fits its artifact: the artifact is sound, and
    /// there is one value for each declared field.
    pub open spec fn wf(&self) -> bool {
        &&& self.artifact.wf()
        &&& self.values.len() == self.artifact.schema.fields.len()
    }

    /// Makes an instance from the values of the fields, given in declaration
    /// order with the skipped fields included. There must be one value for
    /// each declared field.
    pub fn new(artifact: &'a GeneratedArtifact, values: Vec<P>) -> (record: Option<Record<'a, P>>)
        requires
            artifact.wf(),
        ensures
            match record {
                Some(r) => r.artifact == artifact && r.values == values && r.wf(),
                None => values.len() != artifact.schema.fields.len(),
            },
    {
        if values.len() == artifact.schema.fields.len() {
            Some(Record { artifact, values })
        } else {
            None
        }
    }

    /// Reads a field: the tagged value of the field, with a copy of what the
    /// field holds.
    pub fn value(&self, field: FieldVariant) -> (value: ValueVariant<P>)
        requires
            self.wf(),
            self.artifact.declares(field),
        ensures
            reads(self.artifact, self.values@, field, value),
    {
        let source = self.artifact.variants[field.ordinal].source_field;
        ValueVariant { field, payload: self.values[source].clone() }
    }

    /// Writes a field: the payload of the tagged value replaces what the
    /// value's field held. No other field changes.
    pub fn update(&mut self, value: ValueVariant<P>)
        requires
            old(self).wf(),
            old(self).artifact.declares(value.field),
        ensures
            final(self).artifact == old(self).artifact,
            final(self).values@ == written(old(self).artifact, old(self).values@, value),
            final(self).wf(),
    {
        let source = self.artifact.variants[value.field.ordinal].source_field;
        self.values.set(source, value.payload);
    }

    /// All cases of the field enumeration, in declaration order.
    pub fn fields(&self) -> (all: &[FieldVariant])
        ensures
            all@ == self.artifact.field_variants@,
            self.wf() ==> lists_cases(all@, self.artifact.variants.len() as int),
    {
        self.artifact.fields()
    }

    /// Reads every field that is not skipped, in declaration order.
    pub fn as_values(&self) -> (all: Vec<ValueVariant<P>>)
        requires
            self.wf(),
        ensures
            all.len() == self.artifact.variants.len(),
            forall|k: int|
                0 <= k < all.len() ==> reads(
                    self.artifact,
                    self.values@,
                    self.artifact.field_variants@[k],
                    #[trigger] all@[k],
                ),
    {
        let fields = self.fields();
        let mut all: Vec<ValueVariant<P>> = Vec::new();
        let mut k: usize = 0;
        while k < fields.len()
            invariant
                self.wf(),
                fields@ == self.artifact.field_variants@,
                k <= fields.len(),
                all.len() == k,
                forall|j: int|
                    0 <= j < k ==> reads(
                        self.artifact,
                        self.values@,
                        self.artifact.field_variants@[j],
                        #[trigger] all@[j],
                    ),
            decreases fields.len() - k,
        {
            let value = self.value(fields[k]);
            all.push(value);
            k += 1;
        }
        all
    }
}

} // verus!
