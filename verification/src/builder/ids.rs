//! Typed identifiers handed out by the model builder.

use vstd::prelude::*;

use crate::types::ResourceId;

verus! {

/// The id of an object, as the model builder hands it out.
#[derive(Debug, Clone, Copy, PartialEq, Eq, Hash, Structural)]
pub struct ObjectId(pub ResourceId);

impl From<ResourceId> for ObjectId {
    fn from(id: ResourceId) -> (r: Self) {
        ObjectId(id)
    }
}

impl vstd::std_specs::convert::FromSpecImpl<ResourceId> for ObjectId {
    open spec fn obeys_from_spec() -> bool {
        true
    }

    open spec fn from_spec(id: ResourceId) -> ObjectId {
        ObjectId(id)
    }
}

impl From<ObjectId> for ResourceId {
    fn from(id: ObjectId) -> (r: ResourceId) {
        id.0
    }
}

impl vstd::std_specs::convert::FromSpecImpl<ObjectId> for ResourceId {
    open spec fn obeys_from_spec() -> bool {
        true
    }

    open spec fn from_spec(id: ObjectId) -> ResourceId {
        id.0
    }
}

/// The id of a slice stack, as the model builder hands it out.
#[derive(Debug, Clone, Copy, PartialEq, Eq, Hash, Structural)]
pub struct SliceStackId(pub ResourceId);

impl From<ResourceId> for SliceStackId {
    fn from(id: ResourceId) -> (r: Self) {
        SliceStackId(id)
    }
}

impl vstd::std_specs::convert::FromSpecImpl<ResourceId> for SliceStackId {
    open spec fn obeys_from_spec() -> bool {
        true
    }

    open spec fn from_spec(id: ResourceId) -> SliceStackId {
        SliceStackId(id)
    }
}

impl From<SliceStackId> for ResourceId {
    fn from(id: SliceStackId) -> (r: ResourceId) {
        id.0
    }
}

impl vstd::std_specs::convert::FromSpecImpl<SliceStackId> for ResourceId {
    open spec fn obeys_from_spec() -> bool {
        true
    }

    open spec fn from_spec(id: SliceStackId) -> ResourceId {
        id.0
    }
}

} // verus!
