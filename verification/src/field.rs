//! Field specs: the two shapes of a field identifier, told apart once.

use crate::text::{chars_of, dotless_len, has_prefix, lemma_dotless_len, stem_len};
use vstd::prelude::*;
use vstd::string::*;

verus! {

/// A field identifier, by its shape.
#[derive(Clone, Debug, PartialEq, Eq)]
pub enum FieldSpec {
    /// A property of the document itself, possibly dotted.
    Flat { name: String },
    /// A property of a nested sub-object. `path` names the sub-object and is the
    /// part of `property` before its first dot.
    Nested { path: String, property: String },
}

/// What a `FieldSpec` holds, as sequences of characters.
pub enum FieldShape {
    Flat { name: Seq<char> },
    Nested { path: Seq<char>, property: Seq<char> },
}

impl View for FieldSpec {
    type V = FieldShape;

    open spec fn view(&self) -> FieldShape {
        match self {
            FieldSpec::Flat { name } => FieldShape::Flat { name: name@ },
            FieldSpec::Nested { path, property } => FieldShape::Nested {
                path: path@,
                property: property@,
            },
        }
    }
}

/// A field identifier that begins like a nested one and names no sub-object:
/// no dot follows the prefix.
#[derive(Clone, Debug, PartialEq, Eq)]
pub struct InvalidFieldSpec {
    pub field: String,
}

/// The text that a nested field identifier begins with.
pub open spec fn nested_marker() -> Seq<char> {
    "nested:"@
}

/// The shape of a field identifier, or `None` where it is malformed. An
/// identifier that begins with the marker is nested: what follows the marker is
/// the property, and must hold a dot; the path is the part of the property
/// before its first dot. Any other identifier is flat.
pub open spec fn field_shape(field: Seq<char>) -> Option<FieldShape> {
    if nested_marker().is_prefix_of(field) {
        let property = field.skip(nested_marker().len() as int);
        let stem = dotless_len(property);
        if stem < property.len() {
            Some(FieldShape::Nested { path: property.take(stem as int), property })
        } else {
            None
        }
    } else {
        Some(FieldShape::Flat { name: field })
    }
}

/// What holds of every nested shape: the field is the marker followed by the
/// property; the path is the part of the property before its first dot, so it
/// holds no dot itself and a dot follows it.
pub proof fn lemma_nested_shape(field: Seq<char>)
    requires
        field_shape(field) is Some,
        field_shape(field)->0 is Nested,
    ensures
        ({
            let path = field_shape(field)->0->Nested_path;
            let property = field_shape(field)->0->Nested_property;
            &&& field == nested_marker() + property
            &&& path.len() < property.len()
            &&& path == property.take(path.len() as int)
            &&& property[path.len() as int] == '.'
            &&& !path.contains('.')
        }),
{
    let property = field.skip(nested_marker().len() as int);
    lemma_dotless_len(property);
    assert(field =~= nested_marker() + property);
}

/// A field that does not begin with the marker is flat, whatever it holds.
pub proof fn lemma_flat_shape(field: Seq<char>)
    requires
        !nested_marker().is_prefix_of(field),
    ensures
        field_shape(field) == Some(FieldShape::Flat { name: field }),
{
}

impl FieldSpec {
    /// Tells the shape of a field identifier, or fails on a malformed one.
    pub fn parse(field: &str) -> (parsed: Result<FieldSpec, InvalidFieldSpec>)
        ensures
            match parsed {
                Ok(spec) => field_shape(field@) == Some(spec@),
                Err(e) => field_shape(field@) is None && e.field@ == field@,
            },
    {
        let chars = chars_of(field);
        let marker = chars_of("nested:");
        if !has_prefix(&chars, &marker) {
            return Ok(FieldSpec::Flat { name: field.to_owned() });
        }
        let start = marker.len();
        let stem = stem_len(&chars, start);
        if start + stem == chars.len() {
            return Err(InvalidFieldSpec { field: field.to_owned() });
        }
        let path = field.substring_char(start, start + stem);
        let property = field.substring_char(start, chars.len());
        proof {
            let rest = field@.skip(start as int);
            assert(property@ =~= rest);
            assert(path@ =~= rest.take(stem as int));
        }
        Ok(FieldSpec::Nested { path: path.to_owned(), property: property.to_owned() })
    }
}

} // verus!
