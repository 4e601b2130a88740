use vstd::prelude::*;

use crate::error::EngineError;
use crate::resource::{Format, Image};

verus! {

/// The kind of resource a binding slot accepts.
#[derive(Debug, Clone, Copy, PartialEq, Eq, Structural)]
pub enum SlotKind {
    StorageImage,
    Buffer,
}

/// Programmable stage a shader program is compiled for.
#[derive(Debug, Clone, Copy, PartialEq, Eq, Structural)]
pub enum ShaderStage {
    Compute,
    Vertex,
    Fragment,
}

/// Format of one vertex attribute.
#[derive(Debug, Clone, Copy, PartialEq, Eq, Structural)]
pub enum VertexFormat {
    Vec2F32,
    Vec3F32,
    Vec4F32,
}

/// Workgroup size that a compute program declares.
#[derive(Debug, Clone, Copy, PartialEq, Eq, Structural)]
pub struct LocalSize {
    pub x: u32,
    pub y: u32,
    pub z: u32,
}

/// The interface a compiled shader program declares: its stage, its
/// workgroup size (compute only), the resource slots it reads or writes in
/// binding order, its vertex inputs in location order, and how many colour
/// outputs it writes.
pub struct ShaderProgram {
    pub stage: ShaderStage,
    pub local_size: LocalSize,
    pub slots: Vec<SlotKind>,
    pub vertex_inputs: Vec<VertexFormat>,
    pub color_outputs: u32,
}

/// What happens to an attachment when a render pass begins.
#[derive(Debug, Clone, Copy, PartialEq, Eq, Structural)]
pub enum LoadOp {
    Clear,
    Load,
}

/// What happens to an attachment when a render pass ends.
#[derive(Debug, Clone, Copy, PartialEq, Eq, Structural)]
pub enum StoreOp {
    Store,
    DontCare,
}

/// A render pass with one colour attachment and one subpass.
#[derive(Debug, Clone, Copy, PartialEq, Eq, Structural)]
pub struct RenderPassDesc {
    pub format: Format,
    pub load: LoadOp,
    pub store: StoreOp,
    pub samples: u32,
}

/// A viewport in whole pixels, with the scissor equal to it.
#[derive(Debug, Clone, Copy, PartialEq, Eq, Structural)]
pub struct Viewport {
    pub x: u32,
    pub y: u32,
    pub width: u32,
    pub height: u32,
}

#[derive(Debug, Clone, Copy, PartialEq, Eq, Structural)]
pub enum PipelineKind {
    Compute { local_size: LocalSize },
    Graphics { render_pass: RenderPassDesc, viewport: Viewport },
}

/// An immutable pipeline: its kind and fixed-function state, the binding
/// layout it declares, and (for graphics) its vertex layout.
pub struct Pipeline {
    pub id: u32,
    pub kind: PipelineKind,
    pub layout: Vec<SlotKind>,
    pub vertex_layout: Vec<VertexFormat>,
}

/// Whether a compute program fits the binding layout it is built with.
pub open spec fn compute_compatible(p: &ShaderProgram, layout: Seq<SlotKind>) -> bool {
    &&& p.stage == ShaderStage::Compute
    &&& p.local_size.x > 0 && p.local_size.y > 0 && p.local_size.z > 0
    &&& p.slots@ == layout
}

/// Whether a vertex and a fragment program fit a vertex layout and a target.
pub open spec fn graphics_compatible(vs: &ShaderProgram, fs: &ShaderProgram, vertex_layout: Seq<VertexFormat>, target: &Image) -> bool {
    &&& vs.stage == ShaderStage::Vertex
    &&& fs.stage == ShaderStage::Fragment
    &&& vs.vertex_inputs@ == vertex_layout
    &&& vs.slots@.len() == 0
    &&& fs.slots@.len() == 0
    &&& fs.color_outputs == 1
    &&& target.usage.render_target
}

/// The render pass a graphics pipeline renders into `format` with.
pub open spec fn single_pass(format: Format) -> RenderPassDesc {
    RenderPassDesc { format, load: LoadOp::Clear, store: StoreOp::Store, samples: 1 }
}

fn slots_equal(a: &Vec<SlotKind>, b: &Vec<SlotKind>) -> (r: bool)
    ensures
        r == (a@ == b@),
{
    if a.len() != b.len() {
        return false;
    }
    let mut i: usize = 0;
    while i < a.len()
        invariant
            a@.len() == b@.len(),
            i <= a@.len(),
            forall|j: int| 0 <= j < i ==> a@[j] == b@[j],
        decreases a@.len() - i,
    {
        if a[i] != b[i] {
            return false;
        }
        i = i + 1;
    }
    proof {
        assert(a@ =~= b@);
    }
    true
}

fn formats_equal(a: &Vec<VertexFormat>, b: &Vec<VertexFormat>) -> (r: bool)
    ensures
        r == (a@ == b@),
{
    if a.len() != b.len() {
        return false;
    }
    let mut i: usize = 0;
    while i < a.len()
        invariant
            a@.len() == b@.len(),
            i <= a@.len(),
            forall|j: int| 0 <= j < i ==> a@[j] == b@[j],
        decreases a@.len() - i,
    {
        if a[i] != b[i] {
            return false;
        }
        i = i + 1;
    }
    proof {
        assert(a@ =~= b@);
    }
    true
}

/// Builds a compute pipeline from `program` and the binding layout it is to
/// be used with. Fails with `IncompatiblePipelineState` exactly when the
/// program is not a compute program with a positive workgroup size whose
/// declared slots equal `layout`.
pub fn build_compute_pipeline(id: u32, program: &ShaderProgram, layout: Vec<SlotKind>) -> (r: Result<Pipeline, EngineError>)
    ensures
        r is Ok <==> compute_compatible(program, layout@),
        r matches Ok(p) ==> p.id == id && p.kind == (PipelineKind::Compute { local_size: program.local_size })
            && p.layout@ == layout@ && p.vertex_layout@.len() == 0,
        r matches Err(e) ==> e == EngineError::IncompatiblePipelineState,
{
    if program.stage != ShaderStage::Compute || program.local_size.x == 0 || program.local_size.y == 0
        || program.local_size.z == 0 || !slots_equal(&program.slots, &layout) {
        return Err(EngineError::IncompatiblePipelineState);
    }
    Ok(Pipeline { id, kind: PipelineKind::Compute { local_size: program.local_size }, layout, vertex_layout: Vec::new() })
}

/// Builds a graphics pipeline that draws into `target`: a single-pass render
/// pass (cleared on load, stored at the end) in the target's format, and a
/// viewport covering the whole target. Fails with `IncompatiblePipelineState`
/// exactly when the programs' interfaces do not fit `vertex_layout` and the
/// target.
pub fn build_graphics_pipeline(id: u32, vs: &ShaderProgram, fs: &ShaderProgram, vertex_layout: Vec<VertexFormat>, target: &Image) -> (r: Result<Pipeline, EngineError>)
    ensures
        r is Ok <==> graphics_compatible(vs, fs, vertex_layout@, target),
        r matches Ok(p) ==> p.id == id && p.kind == (PipelineKind::Graphics {
            render_pass: single_pass(target.format),
            viewport: Viewport { x: 0, y: 0, width: target.width, height: target.height },
        }) && p.layout@.len() == 0 && p.vertex_layout@ == vertex_layout@,
        r matches Err(e) ==> e == EngineError::IncompatiblePipelineState,
{
    if vs.stage != ShaderStage::Vertex || fs.stage != ShaderStage::Fragment || vs.slots.len() != 0
        || fs.slots.len() != 0 || fs.color_outputs != 1 || !target.usage.render_target
        || !formats_equal(&vs.vertex_inputs, &vertex_layout) {
        return Err(EngineError::IncompatiblePipelineState);
    }
    let render_pass = RenderPassDesc { format: target.format, load: LoadOp::Clear, store: StoreOp::Store, samples: 1 };
    let viewport = Viewport { x: 0, y: 0, width: target.width, height: target.height };
    Ok(Pipeline { id, kind: PipelineKind::Graphics { render_pass, viewport }, layout: Vec::new(), vertex_layout })
}

} // verus!
