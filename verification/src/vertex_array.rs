//! Vertex array objects.

use vstd::prelude::*;
use crate::buffer;
use crate::queue::Destructor;
use std::sync::Arc;

verus! {

/// The maximum number of vertex attributes permitted by the crate.
pub const MAX_ATTRIBUTES: usize = 8;

/// Vertex attribute.
pub type Attribute = buffer::Accessor;

/// Index data.
pub type Indices = buffer::Accessor;

/// Corresponds to a driver vertex array object.
///
/// The accessors recorded here were baked into the driver object when the
/// factory created it; changing an accessor's fields afterwards has no
/// effect without creating a new vertex array.
#[derive(Clone, Debug)]
pub struct VertexArray {
    /// The driver vertex array ID.
    pub id: u32,

    /// Draw sequence indices bound at creation time.
    pub indices: Option<Indices>,

    /// Vertex attributes bound at creation time.
    pub attributes: [Option<Attribute>; MAX_ATTRIBUTES],

    /// Returns the vertex array back to the factory upon destruction.
    pub destructor: Arc<Destructor<u32>>,
}

impl VertexArray {
    /// The destructor enqueues exactly this handle's ID.
    pub open spec fn wf(&self) -> bool {
        self.destructor.message == self.id
    }

    /// Constructor.
    pub fn new(
        id: u32,
        attributes: [Option<Attribute>; MAX_ATTRIBUTES],
        indices: Option<Indices>,
        tx: crossbeam_channel::Sender<u32>,
    ) -> (r: Self)
        ensures
            r.id == id,
            r.indices == indices,
            r.attributes == attributes,
            r.destructor.tx == tx,
            r.wf(),
    {
        Self {
            id,
            indices,
            attributes,
            destructor: Arc::new(Destructor { message: id, tx }),
        }
    }

    /// Returns the driver vertex array ID.
    pub fn id(&self) -> (r: u32)
        ensures
            r == self.id,
    {
        self.id
    }

    /// Returns the accessor bound as the element array buffer.
    pub fn indices(&self) -> (r: Option<&Indices>)
        ensures
            match r {
                Some(accessor) => self.indices matches Some(own) && own == accessor,
                None => self.indices is None,
            },
    {
        self.indices.as_ref()
    }

    /// Returns the accessor bound to the given attribute index.
    pub fn attribute(&self, index: u8) -> (r: Option<&Attribute>)
        requires
            index < MAX_ATTRIBUTES,
        ensures
            match r {
                Some(accessor) => self.attributes@[index as int] matches Some(own) && own == accessor,
                None => self.attributes@[index as int] is None,
            },
    {
        self.attributes[index as usize].as_ref()
    }
}

impl PartialEq for VertexArray {
    /// Handles are equal when they name the same driver ID.
    fn eq(&self, other: &Self) -> (r: bool) {
        self.id == other.id
    }
}

impl vstd::std_specs::cmp::PartialEqSpecImpl for VertexArray {
    open spec fn obeys_eq_spec() -> bool {
        true
    }

    open spec fn eq_spec(&self, other: &Self) -> bool {
        self.id == other.id
    }
}

impl Eq for VertexArray {}

} // verus!
