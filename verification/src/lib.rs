//! Companion enumerations for record types.
//!
//! Given the declaration of a record (a named list of typed fields) and a few
//! options, the library builds a description of two enumerations that go with
//! the record, one naming its fields and one carrying their values, together
//! with the operations that read, write, list and convert fields through them.
//!
//! - [`schema`] holds the input: the declaration, the schema of a record and
//!   the options.
//! - [`types`] holds the declared types of fields and finds the type
//!   parameters in them.
//! - [`naming`] derives the labels of variants.
//! - [`variant`] builds the cases of the two enumerations.
//! - [`lookup`] builds the table that resolves names to fields.
//! - [`conversion`] groups the fields by type and converts between plain
//!   and tagged values.
//! - [`artifact`] puts these together: [`enum_companion_derive`] generates
//!   the artifact of a declaration.
//! - [`record`] reads and writes the instances of a record through its
//!   artifact.
//! - [`companion`] declares the interface that records share.
//! - [`laws`] proves what holds of every artifact.

pub use crate::artifact::enum_companion_derive;
pub use crate::companion::EnumCompanionTrait;

pub mod artifact;
pub mod companion;
pub mod conversion;
pub mod laws;
pub mod lookup;
pub mod naming;
pub mod record;
pub mod schema;
pub mod types;
pub mod variant;
