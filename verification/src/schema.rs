//! The input: a declaration, the record schema taken from it, and the options.

use crate::naming::{default_fields_fn, default_update_fn, default_value_fn};
use crate::types::{name_set, TypeExpr};
use vstd::prelude::*;
use vstd::string::StringExecFns;

verus! {

/// One declared field of a record.
pub struct FieldSpec {
    /// The field's name in the record.
    pub identifier: String,
    /// Its declared type.
    pub ty: TypeExpr,
    /// The label to use for its variant in place of the derived one.
    pub rename: Option<String>,
    /// Whether the field is left out of everything that is generated.
    pub skip: bool,
}

impl FieldSpec {
    /// A field with its identifier and type, not renamed and not skipped.
    pub fn new(identifier: &str, ty: TypeExpr) -> (field: FieldSpec)
        ensures
            field.identifier@ == identifier@,
            field.ty == ty,
            field.rename is None,
            !field.skip,
    {
        FieldSpec { identifier: identifier.to_owned(), ty, rename: None, skip: false }
    }

    /// The same field with `label` as the label of its variant.
    pub fn renamed(self, label: &str) -> (field: FieldSpec)
        ensures
            field.identifier == self.identifier,
            field.ty == self.ty,
            field.rename matches Some(r) && r@ == label@,
            field.skip == self.skip,
    {
        FieldSpec {
            identifier: self.identifier,
            ty: self.ty,
            rename: Some(label.to_owned()),
            skip: self.skip,
        }
    }

    /// The same field, left out of everything that is generated.
    pub fn skipped(self) -> (field: FieldSpec)
        ensures
            field.identifier == self.identifier,
            field.ty == self.ty,
            field.rename == self.rename,
            field.skip,
    {
        FieldSpec { identifier: self.identifier, ty: self.ty, rename: self.rename, skip: true }
    }
}

/// What a declaration declares.
pub enum DeclarationBody {
    /// A record with named fields, in declaration order.
    NamedFields(Vec<FieldSpec>),
    /// A record whose fields have positions and no names.
    TupleFields(Vec<TypeExpr>),
    /// A record without fields.
    Unit,
    /// A tagged union.
    TaggedUnion,
}

/// The shape of a declaration that is no record with named fields.
#[derive(Clone, Copy, Debug, PartialEq, Eq, Structural)]
pub enum Shape {
    /// Fields by position.
    Tuple,
    /// No fields at all.
    Unit,
    /// A tagged union.
    TaggedUnion,
}

/// A parsed type declaration.
pub struct Declaration {
    /// The name of the declared type.
    pub name: String,
    /// Its scope marker, as written; empty for a private type.
    pub visibility: String,
    /// The names of its type parameters, in order.
    pub generic_parameters: Vec<String>,
    /// What it declares.
    pub body: DeclarationBody,
}

/// A record with named fields. The order of the fields is the order of their
/// declaration, and everything generated keeps it.
pub struct RecordSchema {
    /// The name of the record.
    pub name: String,
    /// Its scope marker, as written.
    pub visibility: String,
    /// The names of its type parameters, in order.
    pub generic_parameters: Vec<String>,
    /// Its fields, in declaration order.
    pub fields: Vec<FieldSpec>,
}

/// Why a declaration yields no schema.
#[derive(Clone, Copy, Debug, PartialEq, Eq, Structural)]
pub enum SchemaError {
    /// The declaration is no record with named fields.
    UnsupportedShape(Shape),
}

impl Declaration {
    /// The declaration of a private record without type parameters.
    pub fn record(name: &str, fields: Vec<FieldSpec>) -> (declaration: Declaration)
        ensures
            declaration.name@ == name@,
            declaration.visibility@ == Seq::<char>::empty(),
            declaration.generic_parameters.len() == 0,
            declaration.body == DeclarationBody::NamedFields(fields),
    {
        Declaration {
            name: name.to_owned(),
            visibility: String::new(),
            generic_parameters: Vec::new(),
            body: DeclarationBody::NamedFields(fields),
        }
    }
}

impl Shape {
    /// What the shape is called in a message.
    pub open spec fn name(&self) -> Seq<char> {
        match self {
            Shape::Tuple => "a record with fields by position"@,
            Shape::Unit => "a record without fields"@,
            Shape::TaggedUnion => "a tagged union"@,
        }
    }
}

impl SchemaError {
    /// The message of the failure: what is needed, and what was found.
    pub fn message(&self) -> (text: String)
        ensures
            match self {
                SchemaError::UnsupportedShape(shape) => text@
                    == "a record with named fields is needed, found "@ + shape.name(),
            },
    {
        let mut text = "a record with named fields is needed, found ".to_owned();
        match self {
            SchemaError::UnsupportedShape(Shape::Tuple) => text.append(
                "a record with fields by position",
            ),
            SchemaError::UnsupportedShape(Shape::Unit) => text.append("a record without fields"),
            SchemaError::UnsupportedShape(Shape::TaggedUnion) => text.append("a tagged union"),
        }
        text
    }
}

impl DeclarationBody {
    /// The shape that makes a body unusable, if it is.
    pub open spec fn unsupported(&self) -> Option<Shape> {
        match self {
            DeclarationBody::NamedFields(_) => None,
            DeclarationBody::TupleFields(_) => Some(Shape::Tuple),
            DeclarationBody::Unit => Some(Shape::Unit),
            DeclarationBody::TaggedUnion => Some(Shape::TaggedUnion),
        }
    }
}

impl RecordSchema {
    /// Whether the types of the schema are written coherently: two fields
    /// whose types are written alike depend on the type parameters alike.
    pub open spec fn coherent(&self) -> bool {
        forall|i: int, j: int|
            0 <= i < self.fields.len() && 0 <= j < self.fields.len() && (
            #[trigger] self.fields[i]).ty.same_as(&(#[trigger] self.fields[j]).ty)
                ==> self.fields[i].ty.mentions(name_set(self.generic_parameters@))
                == self.fields[j].ty.mentions(name_set(self.generic_parameters@))
    }

    /// Takes the schema from a declaration. Only a record with named fields
    /// has one; nothing else about the declaration is examined.
    pub fn from_declaration(declaration: Declaration) -> (schema: Result<
        RecordSchema,
        SchemaError,
    >)
        ensures
            match schema {
                Ok(s) => declaration.body == DeclarationBody::NamedFields(s.fields) && s.name
                    == declaration.name && s.visibility == declaration.visibility
                    && s.generic_parameters == declaration.generic_parameters,
                Err(SchemaError::UnsupportedShape(shape)) => declaration.body.unsupported()
                    == Some(shape),
            },
    {
        let Declaration { name, visibility, generic_parameters, body } = declaration;
        match body {
            DeclarationBody::NamedFields(fields) => Ok(
                RecordSchema { name, visibility, generic_parameters, fields },
            ),
            DeclarationBody::TupleFields(_) => Err(SchemaError::UnsupportedShape(Shape::Tuple)),
            DeclarationBody::Unit => Err(SchemaError::UnsupportedShape(Shape::Unit)),
            DeclarationBody::TaggedUnion => Err(
                SchemaError::UnsupportedShape(Shape::TaggedUnion),
            ),
        }
    }
}

/// The options of a generation.
pub struct CompanionConfig {
    /// The name of the operation that reads a field.
    pub value_fn_name: String,
    /// The name of the operation that writes a field.
    pub update_fn_name: String,
    /// The name of the operation that lists the fields.
    pub fields_fn_name: String,
    /// Capabilities to derive for the field enumeration, passed on as they are.
    pub field_enum_derive_list: Vec<String>,
    /// Capabilities to derive for the value enumeration, passed on as they are.
    pub value_enum_derive_list: Vec<String>,
    /// An attribute for the field enumeration, passed on as it is.
    pub field_enum_attr: Option<String>,
    /// An attribute for the value enumeration, passed on as it is.
    pub value_enum_attr: Option<String>,
}

impl Default for CompanionConfig {
    /// The options that nothing was said about: the default names, nothing
    /// to derive, no attribute.
    fn default() -> (config: CompanionConfig)
        ensures
            config.has_default_names(),
            config.field_enum_derive_list.len() == 0,
            config.value_enum_derive_list.len() == 0,
            config.field_enum_attr is None,
            config.value_enum_attr is None,
    {
        CompanionConfig {
            value_fn_name: default_value_fn(),
            update_fn_name: default_update_fn(),
            fields_fn_name: default_fields_fn(),
            field_enum_derive_list: Vec::new(),
            value_enum_derive_list: Vec::new(),
            field_enum_attr: None,
            value_enum_attr: None,
        }
    }
}

impl CompanionConfig {
    /// Whether the three operations have their default names.
    pub open spec fn has_default_names(&self) -> bool {
        &&& self.value_fn_name@ == "value"@
        &&& self.update_fn_name@ == "update"@
        &&& self.fields_fn_name@ == "fields"@
    }

    /// Whether the three operations have their default names.
    pub fn uses_default_names(&self) -> (yes: bool)
        ensures
            yes == self.has_default_names(),
    {
        self.value_fn_name == default_value_fn() && self.update_fn_name == default_update_fn()
            && self.fields_fn_name == default_fields_fn()
    }
}

} // verus!
