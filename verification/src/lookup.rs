//! The lookup table: from a name to the field that it names.

use crate::schema::FieldSpec;
use crate::variant::{variants_cover, FieldVariant, Variant};
use vstd::prelude::*;
use vstd::string::StringExecFns;

verus! {

/// The names that resolve to one variant.
pub struct LookupEntry {
    /// The accepted names: the field's identifier, then its label where that
    /// differs.
    pub keys: Vec<String>,
    /// The variant that they resolve to.
    pub variant: FieldVariant,
}

/// Why a name resolves to no field.
#[derive(Clone, Debug, PartialEq, Eq)]
pub enum LookupError {
    /// No field goes by this name.
    NotFound(String),
}

impl LookupError {
    /// The message of the failure: that the field name is invalid, and the name.
    pub fn message(&self) -> (text: String)
        ensures
            match self {
                LookupError::NotFound(name) => text@ == "Invalid field name: "@ + name@,
            },
    {
        match self {
            LookupError::NotFound(name) => {
                let mut text = "Invalid field name: ".to_owned();
                text.append(name.as_str());
                text
            },
        }
    }
}

/// What a list of strings holds, as plain text.
pub open spec fn texts(list: Seq<String>) -> Seq<Seq<char>> {
    list.map_values(|s: String| s@)
}

impl LookupEntry {
    /// Whether `name` is one of the entry's names.
    pub open spec fn accepts(&self, name: Seq<char>) -> bool {
        texts(self.keys@).contains(name)
    }

    /// Whether `name` is one of the entry's names.
    pub fn matches(&self, name: &String) -> (yes: bool)
        ensures
            yes == self.accepts(name@),
    {
        let mut m: usize = 0;
        while m < self.keys.len()
            invariant
                m <= self.keys.len(),
                forall|j: int| 0 <= j < m ==> (#[trigger] texts(self.keys@)[j]) != name@,
            decreases self.keys.len() - m,
        {
            if self.keys[m] == *name {
                assert(texts(self.keys@)[m as int] == name@);
                return true;
            }
            m += 1;
        }
        false
    }
}

/// Whether `table` is the lookup table of `variants`: one entry for each
/// variant, in order, with the names of the variant's field.
pub open spec fn lookup_covers(
    table: Seq<LookupEntry>,
    variants: Seq<Variant>,
    fields: Seq<FieldSpec>,
) -> bool {
    &&& table.len() == variants.len()
    &&& forall|k: int|
        0 <= k < table.len() ==> {
            &&& (#[trigger] table[k]).variant.ordinal == k
            &&& texts(table[k].keys@) == fields[variants[k].source_field as int].keys()
        }
}

/// Builds the lookup table of a record's variants.
pub fn build_lookup(fields: &Vec<FieldSpec>, variants: &Vec<Variant>) -> (table: Vec<LookupEntry>)
    requires
        variants_cover(variants@, fields@),
    ensures
        lookup_covers(table@, variants@, fields@),
{
    let mut table: Vec<LookupEntry> = Vec::new();
    let mut k: usize = 0;
    while k < variants.len()
        invariant
            k <= variants.len(),
            variants_cover(variants@, fields@),
            table.len() == k,
            forall|j: int|
                0 <= j < k ==> {
                    &&& (#[trigger] table@[j]).variant.ordinal == j
                    &&& texts(table@[j].keys@) == fields@[variants@[j].source_field as int].keys()
                },
        decreases variants.len() - k,
    {
        let variant = &variants[k];
        let field = &fields[variant.source_field];
        let mut keys: Vec<String> = Vec::new();
        keys.push(field.identifier.clone());
        if variant.label != field.identifier {
            keys.push(variant.label.clone());
        }
        table.push(LookupEntry { keys, variant: FieldVariant { ordinal: k } });
        k += 1;
    }
    table
}

/// Looks a name up: the variant of the first entry that accepts it.
pub fn find(table: &Vec<LookupEntry>, name: &str) -> (found: Result<FieldVariant, LookupError>)
    ensures
        match found {
            Ok(v) => exists|k: int|
                0 <= k < table.len() && (#[trigger] table@[k]).accepts(name@) && table@[k].variant
                    == v && forall|j: int| 0 <= j < k ==> !(#[trigger] table@[j]).accepts(name@),
            Err(LookupError::NotFound(n)) => n@ == name@ && forall|k: int|
                0 <= k < table.len() ==> !(#[trigger] table@[k]).accepts(name@),
        },
{
    let wanted = name.to_owned();
    let mut k: usize = 0;
    while k < table.len()
        invariant
            k <= table.len(),
            wanted@ == name@,
            forall|j: int| 0 <= j < k ==> !(#[trigger] table@[j]).accepts(name@),
        decreases table.len() - k,
    {
        if table[k].matches(&wanted) {
            return Ok(table[k].variant);
        }
        k += 1;
    }
    Err(LookupError::NotFound(wanted))
}

} // verus!
