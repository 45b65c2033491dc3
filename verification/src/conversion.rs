//! Conversions between a field's plain value and its tagged value, one for
//! each type that does not depend on a type parameter.

use crate::schema::FieldSpec;
use crate::types::{name_set, type_contains_generic, TypeExpr};
use crate::variant::{variants_cover, FieldVariant, ValueVariant, Variant};
use vstd::prelude::*;

verus! {

/// The conversion for one type: the variants whose fields have that type.
pub struct Conversion {
    /// The variants of the type, in declaration order. The first one leads
    /// the group.
    pub members: Vec<FieldVariant>,
}

impl Conversion {
    /// Whether a variant belongs to the conversion's type.
    pub open spec fn accepts(&self, field: FieldVariant) -> bool {
        self.members@.contains(field)
    }

    /// Whether a variant belongs to the conversion's type.
    pub fn has_member(&self, field: FieldVariant) -> (yes: bool)
        ensures
            yes == self.accepts(field),
    {
        let mut m: usize = 0;
        while m < self.members.len()
            invariant
                m <= self.members.len(),
                forall|j: int| 0 <= j < m ==> self.members@[j] != field,
            decreases self.members.len() - m,
        {
            if self.members[m].ordinal == field.ordinal {
                return true;
            }
            m += 1;
        }
        false
    }

    /// What unwrapping a tagged value gives: its payload where the value's
    /// field has the conversion's type, the value itself as the error
    /// otherwise.
    pub open spec fn raw_of<P>(&self, value: ValueVariant<P>) -> Result<P, ValueVariant<P>> {
        if self.accepts(value.field) {
            Ok(value.payload)
        } else {
            Err(value)
        }
    }

    /// What wrapping a plain value for a field gives: the tagged value where
    /// the field has the conversion's type, the field as the error otherwise.
    pub open spec fn value_of<P>(&self, field: FieldVariant, raw: P) -> Result<
        ValueVariant<P>,
        FieldVariant,
    > {
        if self.accepts(field) {
            Ok(ValueVariant { field, payload: raw })
        } else {
            Err(field)
        }
    }

    /// Unwraps a tagged value into a plain value of the conversion's type.
    /// A value of another type comes back unchanged as the error.
    pub fn try_into_raw<P>(&self, value: ValueVariant<P>) -> (raw: Result<P, ValueVariant<P>>)
        ensures
            raw == self.raw_of(value),
    {
        if self.has_member(value.field) {
            Ok(value.payload)
        } else {
            Err(value)
        }
    }

    /// Wraps a plain value of the conversion's type into the tagged value of
    /// a field. A field of another type comes back as the error.
    pub fn try_from_raw<P>(&self, field: FieldVariant, raw: P) -> (value: Result<
        ValueVariant<P>,
        FieldVariant,
    >)
        ensures
            value == self.value_of(field, raw),
    {
        if self.has_member(field) {
            Ok(ValueVariant { field, payload: raw })
        } else {
            Err(field)
        }
    }
}

/// The declared type of the field of variant `k`.
pub open spec fn variant_type(variants: Seq<Variant>, fields: Seq<FieldSpec>, k: int) -> TypeExpr {
    fields[variants[k].source_field as int].ty
}

/// Whether the fields of variants `j` and `k` have the same type.
pub open spec fn same_type(variants: Seq<Variant>, fields: Seq<FieldSpec>, j: int, k: int) -> bool {
    variant_type(variants, fields, j).same_as(&variant_type(variants, fields, k))
}

/// Whether variant `k` is the first of its type.
pub open spec fn leads(variants: Seq<Variant>, fields: Seq<FieldSpec>, k: int) -> bool {
    forall|j: int| 0 <= j < k ==> !#[trigger] same_type(variants, fields, j, k)
}

/// Whether `members` are the variants of the type of variant `lead`, from
/// `lead` on and below `end`, in declaration order.
pub open spec fn members_cover(
    members: Seq<FieldVariant>,
    variants: Seq<Variant>,
    fields: Seq<FieldSpec>,
    lead: int,
    end: int,
) -> bool {
    &&& forall|m: int|
        0 <= m < members.len() ==> {
            &&& lead <= (#[trigger] members[m]).ordinal < end
            &&& same_type(variants, fields, lead, members[m].ordinal as int)
        }
    &&& forall|m: int, n: int|
        0 <= m < n < members.len() ==> (#[trigger] members[m]).ordinal < (
        #[trigger] members[n]).ordinal
    &&& forall|k: int|
        lead <= k < end && #[trigger] same_type(variants, fields, lead, k) ==> members.contains(
            FieldVariant { ordinal: k as usize },
        )
}

/// Whether `conversion` is the group that variant `lead` leads: all the
/// variants of its type, in declaration order.
pub open spec fn is_group(
    conversion: Conversion,
    variants: Seq<Variant>,
    fields: Seq<FieldSpec>,
    lead: int,
) -> bool {
    &&& conversion.members.len() > 0
    &&& conversion.members[0].ordinal == lead
    &&& members_cover(conversion.members@, variants, fields, lead, variants.len() as int)
}

/// Whether variant `k` gets a conversion: it is the first of its type, and
/// the type depends on none of the type parameters.
pub open spec fn converts(
    variants: Seq<Variant>,
    fields: Seq<FieldSpec>,
    generics: Set<Seq<char>>,
    k: int,
) -> bool {
    leads(variants, fields, k) && !variant_type(variants, fields, k).mentions(generics)
}

/// Whether `conversions` are the conversions of the variants below `n`: one
/// group for each variant that gets a conversion, ordered by the variants
/// that lead them.
pub open spec fn conversions_cover(
    conversions: Seq<Conversion>,
    variants: Seq<Variant>,
    fields: Seq<FieldSpec>,
    generics: Set<Seq<char>>,
    n: int,
) -> bool {
    &&& forall|c: int|
        0 <= c < conversions.len() ==> {
            let lead = (#[trigger] conversions[c]).members[0].ordinal as int;
            &&& is_group(conversions[c], variants, fields, lead)
            &&& 0 <= lead < n
            &&& converts(variants, fields, generics, lead)
        }
    &&& forall|c: int, d: int|
        0 <= c < d < conversions.len() ==> (#[trigger] conversions[c]).members[0].ordinal < (
        #[trigger] conversions[d]).members[0].ordinal
    &&& forall|k: int|
        0 <= k < n && #[trigger] converts(variants, fields, generics, k) ==> exists|c: int|
            0 <= c < conversions.len() && (#[trigger] conversions[c]).members[0].ordinal == k
}

/// A group holds a variant exactly when the variant has the type of the one
/// that leads the group.
pub proof fn lemma_group_goes_by_type(
    conversion: Conversion,
    variants: Seq<Variant>,
    fields: Seq<FieldSpec>,
    lead: int,
    field: FieldVariant,
)
    requires
        is_group(conversion, variants, fields, lead),
        leads(variants, fields, lead),
        field.ordinal < variants.len(),
    ensures
        conversion.accepts(field) <==> same_type(variants, fields, lead, field.ordinal as int),
{
    let k = field.ordinal as int;
    if same_type(variants, fields, lead, k) && k < lead {
        // No variant before the one that leads has its type.
        assert(same_type(variants, fields, k, lead));
    }
}

/// Whether the fields of two variants have the same type.
fn types_agree(fields: &Vec<FieldSpec>, variants: &Vec<Variant>, j: usize, k: usize) -> (yes: bool)
    requires
        variants_cover(variants@, fields@),
        j < variants.len(),
        k < variants.len(),
    ensures
        yes == same_type(variants@, fields@, j as int, k as int),
{
    fields[variants[j].source_field].ty.agrees_with(&fields[variants[k].source_field].ty)
}

/// Whether a variant is the first of its type.
fn is_leader(fields: &Vec<FieldSpec>, variants: &Vec<Variant>, k: usize) -> (yes: bool)
    requires
        variants_cover(variants@, fields@),
        k < variants.len(),
    ensures
        yes == leads(variants@, fields@, k as int),
{
    let mut j: usize = 0;
    while j < k
        invariant
            j <= k < variants.len(),
            variants_cover(variants@, fields@),
            forall|i: int| 0 <= i < j ==> !#[trigger] same_type(variants@, fields@, i, k as int),
        decreases k - j,
    {
        if types_agree(fields, variants, j, k) {
            return false;
        }
        j += 1;
    }
    true
}

/// Gathers the group that a variant leads.
fn collect_group(fields: &Vec<FieldSpec>, variants: &Vec<Variant>, lead: usize) -> (group:
    Conversion)
    requires
        variants_cover(variants@, fields@),
        lead < variants.len(),
    ensures
        is_group(group, variants@, fields@, lead as int),
{
    let mut members: Vec<FieldVariant> = Vec::new();
    members.push(FieldVariant { ordinal: lead });
    let mut k: usize = lead + 1;
    proof {
        assert forall|i: int|
            lead <= i < k && #[trigger] same_type(
                variants@,
                fields@,
                lead as int,
                i,
            ) implies members@.contains(FieldVariant { ordinal: i as usize }) by {
            assert(members@[0] == FieldVariant { ordinal: lead });
        }
    }
    while k < variants.len()
        invariant
            lead < k <= variants.len(),
            variants_cover(variants@, fields@),
            members.len() > 0,
            members@[0].ordinal == lead,
            members_cover(members@, variants@, fields@, lead as int, k as int),
        decreases variants.len() - k,
    {
        if types_agree(fields, variants, lead, k) {
            let ghost before = members@;
            members.push(FieldVariant { ordinal: k });
            proof {
                assert forall|i: int|
                    lead <= i < k + 1 && #[trigger] same_type(
                        variants@,
                        fields@,
                        lead as int,
                        i,
                    ) implies members@.contains(FieldVariant { ordinal: i as usize }) by {
                    if i < k {
                        let w = FieldVariant { ordinal: i as usize };
                        let m = choose|m: int| 0 <= m < before.len() && before[m] == w;
                        assert(members@[m] == w);
                    } else {
                        assert(members@[before.len() as int] == FieldVariant { ordinal: k });
                    }
                }
            }
        }
        k += 1;
    }
    Conversion { members }
}

/// Builds the conversions of a record: the variants are grouped by the type
/// of their fields, and each group whose type depends on no type parameter
/// gets one conversion.
pub fn build_conversions(
    fields: &Vec<FieldSpec>,
    variants: &Vec<Variant>,
    generic_parameters: &Vec<String>,
) -> (conversions: Vec<Conversion>)
    requires
        variants_cover(variants@, fields@),
    ensures
        conversions_cover(
            conversions@,
            variants@,
            fields@,
            name_set(generic_parameters@),
            variants.len() as int,
        ),
{
    let ghost generics = name_set(generic_parameters@);
    let mut conversions: Vec<Conversion> = Vec::new();
    let mut k: usize = 0;
    while k < variants.len()
        invariant
            k <= variants.len(),
            variants_cover(variants@, fields@),
            generics == name_set(generic_parameters@),
            conversions_cover(conversions@, variants@, fields@, generics, k as int),
        decreases variants.len() - k,
    {
        let ty = &fields[variants[k].source_field].ty;
        if is_leader(fields, variants, k) && !type_contains_generic(ty, generic_parameters) {
            let group = collect_group(fields, variants, k);
            let ghost before = conversions@;
            conversions.push(group);
            proof {
                assert forall|i: int|
                    0 <= i < k + 1 && #[trigger] converts(
                        variants@,
                        fields@,
                        generics,
                        i,
                    ) implies exists|c: int|
                    0 <= c < conversions@.len() && (#[trigger] conversions@[c]).members[0].ordinal
                        == i by {
                    if i < k {
                        let c = choose|c: int|
                            0 <= c < before.len() && (#[trigger] before[c]).members[0].ordinal == i;
                        assert(conversions@[c].members[0].ordinal == i);
                    } else {
                        assert(conversions@[before.len() as int].members[0].ordinal == i);
                    }
                }
            }
        }
        k += 1;
    }
    conversions
}

} // verus!
