//! The resources. The server offers none: the list is empty, and every read
//! fails with a description of what is wrong with it.

use crate::json::{items_view, member, member_text, Json, JsonView};
use crate::registry::{lists, names_distinct};
use vstd::prelude::*;

verus! {

/// Why a read failed.
#[derive(Debug, PartialEq)]
pub enum ResourceError {
    /// The read has no `name`, or one that is not a string.
    MissingResourceName,
    /// The read has no `arguments`.
    MissingResourceArguments,
    /// No resource has the name.
    UnknownResource(String),
}

/// The model of a [`ResourceError`].
pub enum ResourceErrorView {
    MissingResourceName,
    MissingResourceArguments,
    UnknownResource(Seq<char>),
}

impl View for ResourceError {
    type V = ResourceErrorView;

    open spec fn view(&self) -> ResourceErrorView {
        match self {
            ResourceError::MissingResourceName => ResourceErrorView::MissingResourceName,
            ResourceError::MissingResourceArguments => ResourceErrorView::MissingResourceArguments,
            ResourceError::UnknownResource(name) => ResourceErrorView::UnknownResource(name@),
        }
    }
}

impl ResourceErrorView {
    /// The text that describes the failure.
    pub open spec fn message(self) -> Seq<char> {
        match self {
            ResourceErrorView::MissingResourceName => "Missing resource name"@,
            ResourceErrorView::MissingResourceArguments => "Missing resource arguments"@,
            ResourceErrorView::UnknownResource(name) => "Unknown resource: "@ + name,
        }
    }
}

impl ResourceError {
    /// The text that describes the failure.
    pub fn message(&self) -> (text: String)
        ensures
            text@ == self@.message(),
    {
        match self {
            ResourceError::MissingResourceName => String::from_str("Missing resource name"),
            ResourceError::MissingResourceArguments => String::from_str(
                "Missing resource arguments",
            ),
            ResourceError::UnknownResource(name) => {
                let mut text = String::from_str("Unknown resource: ");
                text.append(name.as_str());
                text
            },
        }
    }
}

/// The model of the outcome of a read.
pub open spec fn outcome_view(outcome: Result<Json, ResourceError>) -> Result<
    JsonView,
    ResourceErrorView,
> {
    match outcome {
        Ok(content) => Ok(content@),
        Err(error) => Err(error@),
    }
}

/// The descriptors of the resources: there are none.
pub open spec fn resource_descriptors() -> Seq<JsonView> {
    Seq::empty()
}

/// How a read with the given `params` ends.
pub open spec fn resource_outcome(params: JsonView) -> Result<JsonView, ResourceErrorView> {
    match member_text(params, "name"@) {
        None => Err(ResourceErrorView::MissingResourceName),
        Some(name) => match member(params, "arguments"@) {
            None => Err(ResourceErrorView::MissingResourceArguments),
            Some(_) => Err(ResourceErrorView::UnknownResource(name)),
        },
    }
}

/// The resources that the server offers.
pub fn list_resources() -> (resources: Vec<Json>)
    ensures
        items_view(resources@) == resource_descriptors(),
        names_distinct(items_view(resources@)),
{
    Vec::new()
}

/// Reads the resource that `params` names.
pub fn read_resource(params: Json) -> (outcome: Result<Json, ResourceError>)
    ensures
        outcome_view(outcome) == resource_outcome(params@),
{
    let name = match params.get_str("name") {
        Some(name) => name,
        None => { return Err(ResourceError::MissingResourceName); },
    };
    match params.get("arguments") {
        Some(_) => Err(ResourceError::UnknownResource(String::from_str(name))),
        None => Err(ResourceError::MissingResourceArguments),
    }
}

/// A read that names a resource and gives arguments fails for want of a
/// resource exactly if the name is not among the listed ones; and none is.
pub proof fn lemma_unknown_resource_iff_unlisted(params: JsonView)
    requires
        member_text(params, "name"@) is Some,
        member(params, "arguments"@) is Some,
    ensures
        !lists(resource_descriptors(), member_text(params, "name"@)->0),
        resource_outcome(params) == Err::<JsonView, ResourceErrorView>(
            ResourceErrorView::UnknownResource(member_text(params, "name"@)->0),
        ),
{
}

} // verus!
