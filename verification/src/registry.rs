//! Descriptors: what a tool or a resource tells a client about itself.
//!
//! A descriptor is a JSON object with the members `name`, `description` and
//! `inputSchema`. A registry is a list of descriptors in which no name occurs
//! twice.

use crate::json::{member_text, Json, JsonView, ObjectBuilder};
use vstd::prelude::*;

verus! {

/// The schema of one argument.
pub open spec fn property_view(kind: Seq<char>, description: Seq<char>) -> JsonView {
    JsonView::Object(
        map!["type"@ => JsonView::String(kind), "description"@ => JsonView::String(description)],
    )
}

/// The schema of the arguments of a tool or a resource: an object with the
/// given properties, of which the listed ones are required.
pub open spec fn schema_view(properties: JsonView, required: JsonView) -> JsonView {
    JsonView::Object(
        map![
            "type"@ => JsonView::String("object"@),
            "properties"@ => properties,
            "required"@ => required,
        ],
    )
}

/// A descriptor.
pub open spec fn descriptor_view(
    name: Seq<char>,
    description: Seq<char>,
    input_schema: JsonView,
) -> JsonView {
    JsonView::Object(
        map![
            "name"@ => JsonView::String(name),
            "description"@ => JsonView::String(description),
            "inputSchema"@ => input_schema,
        ],
    )
}

/// The name that a descriptor gives.
pub open spec fn name_of(descriptor: JsonView) -> Option<Seq<char>> {
    member_text(descriptor, "name"@)
}

/// No two descriptors give the same name.
pub open spec fn names_distinct(descriptors: Seq<JsonView>) -> bool {
    forall|i: int, j: int|
        0 <= i < j < descriptors.len() ==> name_of(#[trigger] descriptors[i]) != name_of(
            #[trigger] descriptors[j],
        )
}

/// Some descriptor gives the name.
pub open spec fn lists(descriptors: Seq<JsonView>, name: Seq<char>) -> bool {
    exists|i: int| 0 <= i < descriptors.len() && name_of(#[trigger] descriptors[i]) == Some(name)
}

/// A descriptor gives the name it was made with.
pub proof fn lemma_descriptor_name(name: Seq<char>, description: Seq<char>, input_schema: JsonView)
    ensures
        name_of(descriptor_view(name, description, input_schema)) == Some(name),
{
    reveal_strlit("name");
    reveal_strlit("description");
    reveal_strlit("inputSchema");
    assert("name"@.len() == 4 && "description"@.len() == 11 && "inputSchema"@.len() == 11);
}

/// The schema of one argument.
pub fn property(kind: &str, description: &str) -> (schema: Json)
    ensures
        schema@ == property_view(kind@, description@),
{
    ObjectBuilder::new().field("type", Json::string(kind)).field(
        "description",
        Json::string(description),
    ).build()
}

/// The schema of the arguments of a tool or a resource.
pub fn schema(properties: Json, required: Json) -> (schema: Json)
    ensures
        schema@ == schema_view(properties@, required@),
{
    ObjectBuilder::new().field("type", Json::string("object")).field(
        "properties",
        properties,
    ).field("required", required).build()
}

/// A descriptor.
pub fn descriptor(name: &str, description: &str, input_schema: Json) -> (descriptor: Json)
    ensures
        descriptor@ == descriptor_view(name@, description@, input_schema@),
{
    ObjectBuilder::new().field("name", Json::string(name)).field(
        "description",
        Json::string(description),
    ).field("inputSchema", input_schema).build()
}

} // verus!
