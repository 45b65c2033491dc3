//! The capability interface that records share.

use vstd::prelude::*;

verus! {

/// Access to the fields of a record through its two enumerations: `F` names
/// the fields, `V` carries their values.
///
/// A record is bound to this interface when its three operations keep their
/// default names.
pub trait EnumCompanionTrait<F, V> where F: Copy + 'static {
    /// Returns the value of a specific field.
    fn value(&self, field: F) -> V;

    /// Updates the value of a specific field.
    fn update(&mut self, value: V);

    /// Returns all cases of the field enumeration, in declaration order.
    fn fields() -> &'static [F];

    /// Returns the values of all fields, in declaration order.
    fn as_values(&self) -> Vec<V>;
}

} // verus!
