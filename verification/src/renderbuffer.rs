//! GPU-visible pixel containers optimized as render targets.

use vstd::prelude::*;
use crate::queue::Destructor;
use std::sync::Arc;

verus! {

/// Buffer optimized as a render target.
#[derive(Clone, Debug)]
pub struct Renderbuffer {
    /// The driver renderbuffer ID.
    pub id: u32,

    /// Returns the renderbuffer back to the factory upon destruction.
    ///
    /// The implicit renderbuffer (reserved ID 0) is owned outside of this
    /// layer and carries no destructor, so it is never released.
    pub destructor: Option<Arc<Destructor<u32>>>,
}

impl Renderbuffer {
    /// A destructor, when present, enqueues exactly this handle's ID, and
    /// the implicit ID 0 never carries one.
    pub open spec fn wf(&self) -> bool {
        match self.destructor {
            Some(destructor) => destructor.message == self.id && self.id != 0,
            None => self.id == 0,
        }
    }

    /// Constructor.
    pub fn new(id: u32, tx: crossbeam_channel::Sender<u32>) -> (r: Self)
        requires
            id != 0,
        ensures
            r.id == id,
            r.destructor matches Some(destructor) && destructor.tx == tx,
            r.wf(),
    {
        Self {
            id,
            destructor: Some(Arc::new(Destructor { message: id, tx })),
        }
    }

    /// Returns the implicit renderbuffer object, which is owned outside of
    /// this layer and is never released by it.
    pub fn implicit() -> (r: Self)
        ensures
            r.id == 0,
            r.destructor is None,
            r.wf(),
    {
        Self { id: 0, destructor: None }
    }

    /// Returns the driver renderbuffer ID.
    pub fn id(&self) -> (r: u32)
        ensures
            r == self.id,
    {
        self.id
    }
}

impl PartialEq for Renderbuffer {
    /// Handles are equal when they name the same driver ID.
    fn eq(&self, other: &Self) -> (r: bool) {
        self.id == other.id
    }
}

impl vstd::std_specs::cmp::PartialEqSpecImpl for Renderbuffer {
    open spec fn obeys_eq_spec() -> bool {
        true
    }

    open spec fn eq_spec(&self, other: &Self) -> bool {
        self.id == other.id
    }
}

impl Eq for Renderbuffer {}

} // verus!
