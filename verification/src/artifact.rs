//! The generated artifact: what stands beside a record once it is compiled.

use crate::conversion::{
    build_conversions, conversions_cover, converts, lemma_group_goes_by_type, variant_type,
    Conversion,
};
use crate::lookup::{build_lookup, find, lookup_covers, texts, LookupEntry, LookupError};
use crate::schema::{CompanionConfig, Declaration, DeclarationBody, FieldSpec, RecordSchema, SchemaError};
use crate::types::{name_set, TypeExpr};
use crate::variant::{build_variants, lemma_variants_cover, variants_of, FieldVariant, Variant};
use vstd::prelude::*;
use vstd::string::StringExecFns;

verus! {

broadcast use lemma_variants_cover;

/// The head of a generated enumeration. Its cases are the artifact's variants.
pub struct EnumDefinition {
    /// The name of the enumeration.
    pub name: String,
    /// The capabilities that it derives.
    pub derives: Vec<String>,
    /// The attribute that it bears, if any.
    pub attribute: Option<String>,
}

/// What is generated for one record and one set of options.
pub struct GeneratedArtifact {
    /// The record that the artifact belongs to.
    pub schema: RecordSchema,
    /// The options that it was generated with.
    pub config: CompanionConfig,
    /// The enumeration of the fields.
    pub field_enum: EnumDefinition,
    /// The enumeration of the values.
    pub value_enum: EnumDefinition,
    /// The cases of both enumerations, in declaration order.
    pub variants: Vec<Variant>,
    /// All cases of the field enumeration, in declaration order.
    pub field_variants: Vec<FieldVariant>,
    /// The table that resolves names.
    pub lookup: Vec<LookupEntry>,
    /// The conversions by type.
    pub conversions: Vec<Conversion>,
    /// Whether the record is bound to the shared capability interface.
    pub binds_capability: bool,
}

/// Whether `definition` is the head of an enumeration of a record: named
/// after the record, deriving the base capabilities and then the requested
/// ones, and bearing the requested attribute.
pub open spec fn defines(
    definition: EnumDefinition,
    record: Seq<char>,
    suffix: Seq<char>,
    base: Seq<Seq<char>>,
    requested: Seq<String>,
    attribute: Option<String>,
) -> bool {
    &&& definition.name@ == record + suffix
    &&& texts(definition.derives@) == base + texts(requested)
    &&& definition.attribute == attribute
}

/// Whether `all` lists the cases of a field enumeration of `n` cases.
pub open spec fn lists_cases(all: Seq<FieldVariant>, n: int) -> bool {
    &&& all.len() == n
    &&& forall|k: int| 0 <= k < n ==> (#[trigger] all[k]).ordinal == k
}

impl GeneratedArtifact {
    /// The capabilities that the field enumeration always derives.
    pub open spec fn field_base() -> Seq<Seq<char>> {
        seq!["Copy"@, "Clone"@]
    }

    /// The capabilities that the value enumeration always derives.
    pub open spec fn value_base() -> Seq<Seq<char>> {
        seq!["Clone"@]
    }

    /// Whether the artifact is the one that its schema and options give.
    pub open spec fn wf(&self) -> bool {
        &&& variants_of(self.variants@, self.schema.fields@)
        &&& lists_cases(self.field_variants@, self.variants.len() as int)
        &&& lookup_covers(self.lookup@, self.variants@, self.schema.fields@)
        &&& conversions_cover(
            self.conversions@,
            self.variants@,
            self.schema.fields@,
            name_set(self.schema.generic_parameters@),
            self.variants.len() as int,
        )
        &&& defines(
            self.field_enum,
            self.schema.name@,
            "Field"@,
            Self::field_base(),
            self.config.field_enum_derive_list@,
            self.config.field_enum_attr,
        )
        &&& defines(
            self.value_enum,
            self.schema.name@,
            "Value"@,
            Self::value_base(),
            self.config.value_enum_derive_list@,
            self.config.value_enum_attr,
        )
        &&& self.binds_capability == self.config.has_default_names()
    }

    /// Whether `field` is a case of this artifact's field enumeration.
    pub open spec fn declares(&self, field: FieldVariant) -> bool {
        field.ordinal < self.variants.len()
    }

    /// The position in the schema of the field that a variant stands for.
    pub open spec fn source(&self, field: FieldVariant) -> int {
        self.variants[field.ordinal as int].source_field as int
    }

    /// The field that a variant stands for.
    pub open spec fn field_of(&self, field: FieldVariant) -> FieldSpec {
        self.schema.fields[self.source(field)]
    }

    /// Whether `name` is a name of the field of variant `k`: its identifier
    /// or its label, letter for letter.
    pub open spec fn answers(&self, k: int, name: Seq<char>) -> bool {
        let field = self.schema.fields[self.variants[k].source_field as int];
        name == field.identifier@ || name == field.label()
    }

    /// Whether `found` is what resolving `name` gives: the first variant in
    /// declaration order whose field goes by the name, or the failure that
    /// carries the name where no field does.
    pub open spec fn resolves_to(
        &self,
        name: Seq<char>,
        found: Result<FieldVariant, LookupError>,
    ) -> bool {
        match found {
            Ok(v) => {
                &&& self.declares(v)
                &&& self.answers(v.ordinal as int, name)
                &&& forall|j: int| 0 <= j < v.ordinal ==> !self.answers(j, name)
            },
            Err(LookupError::NotFound(n)) => {
                &&& n@ == name
                &&& forall|k: int| 0 <= k < self.variants.len() ==> !self.answers(k, name)
            },
        }
    }

    /// The variant that leads conversion `c`.
    pub open spec fn lead(&self, c: int) -> int {
        self.conversions[c].members[0].ordinal as int
    }

    /// The type of conversion `c`.
    pub open spec fn conversion_type(&self, c: int) -> TypeExpr {
        variant_type(self.variants@, self.schema.fields@, self.lead(c))
    }

    /// Whether `conversion` is what the artifact has for the type `ty`: the
    /// one conversion of that type, which accepts exactly the variants whose
    /// fields have the type; or nothing, where no variant that gets a
    /// conversion has the type.
    pub open spec fn converts_by(&self, ty: &TypeExpr, conversion: Option<&Conversion>) -> bool {
        match conversion {
            Some(found) => {
                &&& exists|c: int|
                    0 <= c < self.conversions.len() && self.conversions@[c] == *found
                        && #[trigger] self.conversion_type(c).same_as(ty)
                &&& forall|field: FieldVariant|
                    self.declares(field) ==> (#[trigger] found.accepts(field) <==> self.field_of(
                        field,
                    ).ty.same_as(ty))
            },
            None => forall|k: int|
                0 <= k < self.variants.len() && #[trigger] converts(
                    self.variants@,
                    self.schema.fields@,
                    name_set(self.schema.generic_parameters@),
                    k,
                ) ==> !variant_type(self.variants@, self.schema.fields@, k).same_as(ty),
        }
    }

    /// Resolves a name to the field that goes by it. A field goes by its
    /// identifier and by its label; the match is exact. Where several fields
    /// go by the name, the first in declaration order is found.
    pub fn resolve(&self, name: &str) -> (found: Result<FieldVariant, LookupError>)
        requires
            self.wf(),
        ensures
            self.resolves_to(name@, found),
    {
        proof {
            assert forall|k: int|
                #![trigger self.lookup@[k]]
                #![trigger self.answers(k, name@)]
                0 <= k < self.lookup.len() implies self.lookup@[k].accepts(name@) == self.answers(
                k,
                name@,
            ) by {
                // The names of the entry are the keys of the variant's field.
                let field = self.schema.fields@[self.variants@[k].source_field as int];
                assert(field.keys()[0] == field.identifier@);
            }
        }
        find(&self.lookup, name)
    }

    /// The case of the field enumeration at a position, if there is one.
    pub fn variant(&self, ordinal: usize) -> (field: Option<FieldVariant>)
        ensures
            match field {
                Some(f) => f.ordinal == ordinal && self.declares(f),
                None => ordinal >= self.variants.len(),
            },
    {
        if ordinal < self.variants.len() {
            Some(FieldVariant { ordinal })
        } else {
            None
        }
    }

    /// The label of a variant: the name of its case in both enumerations.
    pub fn label(&self, field: FieldVariant) -> (label: &String)
        requires
            self.wf(),
            self.declares(field),
        ensures
            label@ == self.field_of(field).label(),
            *label == self.variants@[field.ordinal as int].label,
    {
        &self.variants[field.ordinal].label
    }

    /// The type of the value that a variant's case of the value enumeration
    /// carries: the declared type of the variant's field.
    pub fn payload_type(&self, field: FieldVariant) -> (ty: &TypeExpr)
        requires
            self.wf(),
            self.declares(field),
        ensures
            *ty == self.field_of(field).ty,
    {
        &self.schema.fields[self.variants[field.ordinal].source_field].ty
    }

    /// All cases of the field enumeration, in declaration order. The list
    /// is the artifact's own: nothing is allocated.
    pub fn fields(&self) -> (all: &[FieldVariant])
        ensures
            all@ == self.field_variants@,
            self.wf() ==> lists_cases(all@, self.variants.len() as int),
    {
        self.field_variants.as_slice()
    }

    /// The conversion for a type, if the record has one. It has one for the
    /// type of each field that is not skipped, unless the type, as the first
    /// such field has it, depends on a type parameter. The conversion
    /// accepts every variant whose field has the type, and no other.
    pub fn conversion_for(&self, ty: &TypeExpr) -> (conversion: Option<&Conversion>)
        requires
            self.wf(),
        ensures
            self.converts_by(ty, conversion),
    {
        let mut c: usize = 0;
        while c < self.conversions.len()
            invariant
                c <= self.conversions.len(),
                self.wf(),
                forall|i: int| 0 <= i < c ==> !#[trigger] self.conversion_type(i).same_as(ty),
            decreases self.conversions.len() - c,
        {
            let conversion = &self.conversions[c];
            let lead = conversion.members[0].ordinal;
            if self.schema.fields[self.variants[lead].source_field].ty.agrees_with(ty) {
                proof {
                    assert(self.conversion_type(c as int).same_as(ty));
                    assert forall|field: FieldVariant| self.declares(field) implies (
                    #[trigger] conversion.accepts(field) <==> self.field_of(field).ty.same_as(
                        ty,
                    )) by {
                        lemma_group_goes_by_type(
                            *conversion,
                            self.variants@,
                            self.schema.fields@,
                            lead as int,
                            field,
                        );
                    }
                }
                return Some(conversion);
            }
            c += 1;
        }
        proof {
            assert forall|k: int|
                0 <= k < self.variants.len() && #[trigger] converts(
                    self.variants@,
                    self.schema.fields@,
                    name_set(self.schema.generic_parameters@),
                    k,
                ) implies !variant_type(self.variants@, self.schema.fields@, k).same_as(ty) by {
                let i = choose|i: int|
                    0 <= i < self.conversions.len() && (
                    #[trigger] self.conversions@[i]).members[0].ordinal == k;
                assert(!self.conversion_type(i).same_as(ty));
            }
        }
        None
    }
}

/// Copies a list of strings.
fn copy_names(target: &mut Vec<String>, names: &Vec<String>)
    ensures
        texts(final(target)@) == texts(old(target)@) + texts(names@),
{
    let ghost start = target@;
    let mut i: usize = 0;
    while i < names.len()
        invariant
            i <= names.len(),
            texts(target@) == texts(start) + texts(names@.take(i as int)),
        decreases names.len() - i,
    {
        let ghost before = target@;
        target.push(names[i].clone());
        assert(texts(target@) =~= texts(before).push(names@[i as int]@));
        i += 1;
    }
}

/// Copies an optional string.
fn copy_attribute(attribute: &Option<String>) -> (copy: Option<String>)
    ensures
        copy == *attribute,
{
    match attribute {
        Some(text) => Some(text.clone()),
        None => None,
    }
}

/// Lists the cases of a field enumeration of `n` cases.
fn list_cases(n: usize) -> (all: Vec<FieldVariant>)
    ensures
        lists_cases(all@, n as int),
{
    let mut all: Vec<FieldVariant> = Vec::new();
    let mut k: usize = 0;
    while k < n
        invariant
            k <= n,
            lists_cases(all@, k as int),
        decreases n - k,
    {
        all.push(FieldVariant { ordinal: k });
        k += 1;
    }
    all
}

/// Generates the companion artifact of a declaration.
///
/// Only a record with named fields has one; any other declaration is
/// refused, and nothing is generated for it. The artifact holds the two
/// enumerations, with one case for each field that is not skipped, in
/// declaration order; the table that resolves names; the conversions by
/// type; and whether the record is bound to the capability interface, which
/// it is when the three operations keep their default names.
pub fn enum_companion_derive(declaration: Declaration, config: CompanionConfig) -> (artifact:
    Result<GeneratedArtifact, SchemaError>)
    ensures
        match artifact {
            Ok(a) => {
                &&& declaration.body == DeclarationBody::NamedFields(a.schema.fields)
                &&& a.schema.name == declaration.name
                &&& a.schema.visibility == declaration.visibility
                &&& a.schema.generic_parameters == declaration.generic_parameters
                &&& a.config == config
                &&& a.wf()
            },
            Err(SchemaError::UnsupportedShape(shape)) => declaration.body.unsupported() == Some(
                shape,
            ),
        },
{
    let schema = match RecordSchema::from_declaration(declaration) {
        Ok(schema) => schema,
        Err(error) => {
            return Err(error);
        },
    };

    let variants = build_variants(&schema.fields);
    let lookup = build_lookup(&schema.fields, &variants);
    let field_variants = list_cases(variants.len());

    let mut field_derives: Vec<String> = Vec::new();
    field_derives.push("Copy".to_owned());
    field_derives.push("Clone".to_owned());
    assert(texts(field_derives@) =~= GeneratedArtifact::field_base());
    copy_names(&mut field_derives, &config.field_enum_derive_list);
    let field_enum = EnumDefinition {
        name: schema.name.clone().concat("Field"),
        derives: field_derives,
        attribute: copy_attribute(&config.field_enum_attr),
    };

    let mut value_derives: Vec<String> = Vec::new();
    value_derives.push("Clone".to_owned());
    assert(texts(value_derives@) =~= GeneratedArtifact::value_base());
    copy_names(&mut value_derives, &config.value_enum_derive_list);
    let value_enum = EnumDefinition {
        name: schema.name.clone().concat("Value"),
        derives: value_derives,
        attribute: copy_attribute(&config.value_enum_attr),
    };

    let binds_capability = config.uses_default_names();
    let conversions = build_conversions(&schema.fields, &variants, &schema.generic_parameters);

    Ok(
        GeneratedArtifact {
            schema,
            config,
            field_enum,
            value_enum,
            variants,
            field_variants,
            lookup,
            conversions,
            binds_capability,
        },
    )
}

} // verus!
