//! The index engine's schema, as this library sees it.
use vstd::prelude::*;

verus! {

#[verifier::external_type_specification]
#[verifier::external_body]
pub struct ExSchema(tantivy::schema::Schema);

/// The fields of a schema: each field name with the id of its field.
pub uninterp spec fn schema_fields(s: tantivy::schema::Schema) -> Map<Seq<char>, u32>;

/// Relies on tantivy's `Schema::get_field`: a lookup of the name in the
/// schema's map from field names to fields.
#[verifier::external_body]
pub(crate) fn get_field(schema: &tantivy::schema::Schema, name: &str) -> (r: Option<u32>)
    ensures
        r == (if schema_fields(*schema).contains_key(name@) {
            Some(schema_fields(*schema)[name@])
        } else {
            None::<u32>
        }),
{
    schema.get_field(name).map(|f| f.field_id())
}

} // verus!
