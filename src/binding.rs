use vstd::prelude::*;

use crate::error::EngineError;
use crate::pipeline::{Pipeline, SlotKind};

verus! {

/// A resource handed to a binding slot, by id.
#[derive(Debug, Clone, Copy, PartialEq, Eq, Structural)]
pub enum ResourceRef {
    Image { id: u32 },
    Buffer { id: u32 },
}

/// The slot kind a resource can fill.
pub open spec fn kind_of(r: ResourceRef) -> SlotKind {
    match r {
        ResourceRef::Image { .. } => SlotKind::StorageImage,
        ResourceRef::Buffer { .. } => SlotKind::Buffer,
    }
}

/// One (slot index, resource) pair.
#[derive(Debug, Clone, Copy, PartialEq, Eq, Structural)]
pub struct Binding {
    pub slot: u32,
    pub resource: ResourceRef,
}

/// Resources assigned to the slots of one pipeline, in slot order.
pub struct BindingSet {
    pub pipeline_id: u32,
    pub bindings: Vec<Binding>,
}

/// Whether `bindings` fills `layout` exactly: one binding per slot, in slot
/// order, each of the kind the slot declares.
pub open spec fn matches_layout(layout: Seq<SlotKind>, bindings: Seq<Binding>) -> bool {
    &&& bindings.len() == layout.len()
    &&& forall|i: int| 0 <= i < bindings.len() ==> bindings[i].slot == i && kind_of(#[trigger] bindings[i].resource) == layout[i]
}

fn kind_matches(r: ResourceRef, k: SlotKind) -> (b: bool)
    ensures
        b == (kind_of(r) == k),
{
    match r {
        ResourceRef::Image { .. } => k == SlotKind::StorageImage,
        ResourceRef::Buffer { .. } => k == SlotKind::Buffer,
    }
}

/// Assigns `bindings` to the slots `pipeline` declares. Fails with
/// `BindingMismatch` exactly when they do not fill its layout; nothing is
/// allocated either way.
pub fn bind(pipeline: &Pipeline, bindings: Vec<Binding>) -> (r: Result<BindingSet, EngineError>)
    ensures
        r is Ok <==> matches_layout(pipeline.layout@, bindings@),
        r matches Ok(s) ==> s.pipeline_id == pipeline.id && s.bindings@ == bindings@,
        r matches Err(e) ==> e == EngineError::BindingMismatch,
{
    if bindings.len() != pipeline.layout.len() {
        return Err(EngineError::BindingMismatch);
    }
    let mut i: usize = 0;
    while i < bindings.len()
        invariant
            bindings@.len() == pipeline.layout@.len(),
            i <= bindings@.len(),
            forall|j: int| 0 <= j < i ==> bindings@[j].slot == j && kind_of(#[trigger] bindings@[j].resource) == pipeline.layout@[j],
        decreases bindings@.len() - i,
    {
        let b = bindings[i];
        if b.slot as usize != i || !kind_matches(b.resource, pipeline.layout[i]) {
            return Err(EngineError::BindingMismatch);
        }
        i = i + 1;
    }
    Ok(BindingSet { pipeline_id: pipeline.id, bindings })
}

} // verus!
