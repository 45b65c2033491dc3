//! Type expressions, and the search for generic parameters in them.

use vstd::prelude::*;

verus! {

/// The declared type of a field.
///
/// A type expression is a tree. Each node keeps its notation, the segments of
/// its path where it is a path, and the type expressions written directly
/// inside it: the arguments of a generic type, the element of a reference, a
/// slice or an array, the members of a tuple.
pub struct TypeExpr {
    /// The type as it is written. Two fields have the same type when their
    /// notations are equal.
    pub notation: String,
    /// The identifiers of the path's segments, in order; empty where the type
    /// is no path.
    pub path: Vec<String>,
    /// The type expressions directly inside this one, in order.
    pub components: Vec<TypeExpr>,
}

/// The names that a list of strings holds.
pub open spec fn name_set(names: Seq<String>) -> Set<Seq<char>> {
    Set::new(|n: Seq<char>| exists|i: int| 0 <= i < names.len() && #[trigger] names[i]@ == n)
}

impl TypeExpr {
    /// Whether a segment of this node's own path is one of `names`.
    pub open spec fn path_names(&self, names: Set<Seq<char>>) -> bool {
        exists|i: int| 0 <= i < self.path.len() && names.contains(#[trigger] self.path[i]@)
    }

    /// Whether a path segment anywhere in the type expression is one of `names`.
    pub open spec fn mentions(&self, names: Set<Seq<char>>) -> bool
        decreases self,
    {
        self.path_names(names) || exists|i: int|
            0 <= i < self.components.len() && (#[trigger] self.components[i]).mentions(names)
    }

    /// Whether two type expressions denote the same type: they are written alike.
    pub open spec fn same_as(&self, other: &TypeExpr) -> bool {
        self.notation@ == other.notation@
    }

    /// Whether two type expressions denote the same type.
    pub fn agrees_with(&self, other: &TypeExpr) -> (yes: bool)
        ensures
            yes == self.same_as(other),
    {
        self.notation == other.notation
    }

    /// A type expression from its notation, the segments of its path and the
    /// type expressions inside it.
    pub fn new(notation: &str, path: Vec<String>, components: Vec<TypeExpr>) -> (ty: TypeExpr)
        ensures
            ty.notation@ == notation@,
            ty.path == path,
            ty.components == components,
    {
        TypeExpr { notation: notation.to_owned(), path, components }
    }

    /// The type that a single name denotes, such as `u32` or `String`: a
    /// path of one segment with nothing inside.
    pub fn named(name: &str) -> (ty: TypeExpr)
        ensures
            ty.notation@ == name@,
            ty.path.len() == 1,
            ty.path[0]@ == name@,
            ty.components.len() == 0,
    {
        let mut path: Vec<String> = Vec::new();
        path.push(name.to_owned());
        TypeExpr { notation: name.to_owned(), path, components: Vec::new() }
    }
}

/// Whether `list` holds `name`.
pub fn holds_name(list: &Vec<String>, name: &String) -> (found: bool)
    ensures
        found == name_set(list@).contains(name@),
{
    let mut i: usize = 0;
    while i < list.len()
        invariant
            i <= list.len(),
            forall|j: int| 0 <= j < i ==> (#[trigger] list@[j])@ != name@,
        decreases list.len() - i,
    {
        if list[i] == *name {
            return true;
        }
        i += 1;
    }
    false
}

/// Walks a type expression and notes whether it met a generic parameter.
pub struct GenericVisitor<'a> {
    /// The names of the record's type parameters.
    pub generic_params: &'a Vec<String>,
    /// Whether a path segment met so far is one of them.
    pub contains_generic: bool,
}

impl<'a> GenericVisitor<'a> {
    /// Whether a segment of the node's own path is a generic parameter.
    fn path_is_generic(&self, ty: &TypeExpr) -> (found: bool)
        ensures
            found == ty.path_names(name_set(self.generic_params@)),
    {
        let mut i: usize = 0;
        while i < ty.path.len()
            invariant
                i <= ty.path.len(),
                forall|j: int|
                    0 <= j < i ==> !name_set(self.generic_params@).contains(
                        (#[trigger] ty.path@[j])@,
                    ),
            decreases ty.path.len() - i,
        {
            if holds_name(self.generic_params, &ty.path[i]) {
                return true;
            }
            i += 1;
        }
        false
    }

    /// Visits a type expression: tests the segments of its path, then visits
    /// the type expressions inside it. Once a generic parameter is found the
    /// walk stops.
    pub fn visit_type_path(&mut self, ty: &TypeExpr)
        ensures
            final(self).generic_params == old(self).generic_params,
            final(self).contains_generic == (old(self).contains_generic || ty.mentions(
                name_set(old(self).generic_params@),
            )),
        decreases ty,
    {
        if self.contains_generic {
            return ;
        }
        if self.path_is_generic(ty) {
            self.contains_generic = true;
            return ;
        }
        let ghost names = name_set(self.generic_params@);
        let mut i: usize = 0;
        while i < ty.components.len()
            invariant
                i <= ty.components.len(),
                self.generic_params == old(self).generic_params,
                names == name_set(self.generic_params@),
                !ty.path_names(names),
                self.contains_generic == exists|j: int|
                    0 <= j < i && (#[trigger] ty.components@[j]).mentions(names),
            decreases ty.components.len() - i,
        {
            self.visit_type_path(&ty.components[i]);
            i += 1;
        }
    }
}

/// Whether a type expression depends on one of the record's type parameters:
/// whether a path segment anywhere in it is one of `generic_params`.
pub fn type_contains_generic(ty: &TypeExpr, generic_params: &Vec<String>) -> (found: bool)
    ensures
        found == ty.mentions(name_set(generic_params@)),
{
    let mut visitor = GenericVisitor { generic_params, contains_generic: false };
    visitor.visit_type_path(ty);
    visitor.contains_generic
}

} // verus!
