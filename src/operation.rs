use vstd::prelude::*;

use crate::binding::{bind, Binding, BindingSet, ResourceRef};
use crate::command::{ClearColor, CommandBuffer, Op, Recorder};
use crate::error::EngineError;
use crate::pipeline::{
    build_compute_pipeline, build_graphics_pipeline, LocalSize, Pipeline, PipelineKind, ShaderProgram,
    ShaderStage, SlotKind, VertexFormat, Viewport, single_pass,
};
use crate::command::{well_ordered, scan};
use crate::sync::{lemma_readback_waits, readback_spec, wait_spec, FenceState, WaitOutcome};
use crate::resource::{allocatable, checked_surface_len, create_host_buffer, create_image, Format, HostBuffer, Image, ImageUsage};

verus! {

/// Id of the image each operation renders into.
pub const TARGET_IMAGE: u32 = 0;

/// Id of the host buffer each operation reads back through.
pub const READBACK_BUFFER: u32 = 1;

/// Id of the pipeline each operation builds.
pub const PIPELINE: u32 = 0;

/// Side of the Mandelbrot kernel's square workgroup.
pub const MANDELBROT_GROUP: u32 = 8;

/// Vertices the triangle operation draws.
pub const TRIANGLE_VERTICES: u32 = 3;

/// Opaque blue.
pub open spec fn opaque_blue() -> ClearColor {
    ClearColor { r: 0, g: 0, b: 255, a: 255 }
}

/// The colour the triangle operation clears its target to.
pub fn clear_blue() -> (c: ClearColor)
    ensures
        c == opaque_blue(),
{
    ClearColor { r: 0, g: 0, b: 255, a: 255 }
}

/// The target image and host buffer of one operation.
pub open spec fn target_image(queue_family: u32, size: u32, usage: ImageUsage) -> Image {
    Image { id: TARGET_IMAGE, width: size, height: size, format: Format::R8G8B8A8Unorm, usage, queue_family }
}

pub open spec fn size_error(size: u32) -> EngineError {
    EngineError::AllocationFailed { width: size, height: size, format: Format::R8G8B8A8Unorm }
}

pub open spec fn square_ok(size: u32) -> bool {
    allocatable(size as nat, size as nat, Format::R8G8B8A8Unorm)
}

/// Allocates a square RGBA target image of side `size` and a CPU-readable
/// host buffer of exactly its byte length.
pub fn make_img_and_buf(queue_family: u32, size: u32, usage: ImageUsage) -> (r: Result<(Image, HostBuffer), EngineError>)
    ensures
        r is Ok <==> square_ok(size),
        r matches Ok((img, buf)) ==> img == target_image(queue_family, size, usage) && img.wf()
            && buf.id == READBACK_BUFFER && buf.cpu_readable && buf.byte_len as nat == img.byte_len(),
        r matches Err(e) ==> e == size_error(size),
{
    let image = create_image(TARGET_IMAGE, size, size, Format::R8G8B8A8Unorm, usage, queue_family)?;
    match checked_surface_len(size, size, Format::R8G8B8A8Unorm) {
        Some(len) => Ok((image, create_host_buffer(READBACK_BUFFER, len, true))),
        None => Err(EngineError::AllocationFailed { width: size, height: size, format: Format::R8G8B8A8Unorm }),
    }
}

/// The interface the Mandelbrot compute kernel declares: 8 x 8 x 1
/// workgroups writing one storage image at slot 0.
pub fn mandelbrot_program() -> (p: ShaderProgram)
    ensures
        p.stage == ShaderStage::Compute,
        p.local_size == (LocalSize { x: 8, y: 8, z: 1 }),
        p.slots@ == seq![SlotKind::StorageImage],
        p.vertex_inputs@.len() == 0,
        p.color_outputs == 0,
{
    ShaderProgram {
        stage: ShaderStage::Compute,
        local_size: LocalSize { x: MANDELBROT_GROUP, y: MANDELBROT_GROUP, z: 1 },
        slots: vec![SlotKind::StorageImage],
        vertex_inputs: Vec::new(),
        color_outputs: 0,
    }
}

/// The interface the triangle's vertex program declares: one 2D position.
pub fn triangle_vertex_program() -> (p: ShaderProgram)
    ensures
        p.stage == ShaderStage::Vertex,
        p.slots@.len() == 0,
        p.vertex_inputs@ == seq![VertexFormat::Vec2F32],
        p.color_outputs == 0,
{
    ShaderProgram {
        stage: ShaderStage::Vertex,
        local_size: LocalSize { x: 1, y: 1, z: 1 },
        slots: Vec::new(),
        vertex_inputs: vec![VertexFormat::Vec2F32],
        color_outputs: 0,
    }
}

/// The interface the triangle's fragment program declares: one colour output.
pub fn triangle_fragment_program() -> (p: ShaderProgram)
    ensures
        p.stage == ShaderStage::Fragment,
        p.slots@.len() == 0,
        p.vertex_inputs@.len() == 0,
        p.color_outputs == 1,
{
    ShaderProgram {
        stage: ShaderStage::Fragment,
        local_size: LocalSize { x: 1, y: 1, z: 1 },
        slots: Vec::new(),
        vertex_inputs: Vec::new(),
        color_outputs: 1,
    }
}

/// Everything one Mandelbrot render submits and reads back through.
pub struct ComputeJob {
    pub image: Image,
    pub buffer: HostBuffer,
    pub pipeline: Pipeline,
    pub set: BindingSet,
    pub commands: CommandBuffer,
}

/// Everything one triangle render submits and reads back through.
pub struct DrawJob {
    pub image: Image,
    pub buffer: HostBuffer,
    pub pipeline: Pipeline,
    pub commands: CommandBuffer,
}

/// The commands of a Mandelbrot render of side `size`: one dispatch over
/// the whole image, then the copy into the host buffer.
pub open spec fn mandelbrot_ops(size: u32) -> Seq<Op> {
    seq![
        Op::Dispatch { pipeline: PIPELINE, groups_x: size / 8, groups_y: size / 8, groups_z: 1 },
        Op::CopyImageToBuffer { image: TARGET_IMAGE, buffer: READBACK_BUFFER },
    ]
}

/// The commands of a triangle render: clear the target to blue, draw the
/// three vertices, end the pass, then copy into the host buffer.
pub open spec fn triangle_ops() -> Seq<Op> {
    seq![
        Op::BeginRenderPass { image: TARGET_IMAGE, clear: opaque_blue() },
        Op::Draw { pipeline: PIPELINE, vertex_count: 3 },
        Op::EndRenderPass,
        Op::CopyImageToBuffer { image: TARGET_IMAGE, buffer: READBACK_BUFFER },
    ]
}

/// What a Mandelbrot render of side `size` records, or the error it stops
/// with before anything is submitted.
pub open spec fn mandelbrot_outcome(size: u32) -> Result<Seq<Op>, EngineError> {
    if !square_ok(size) {
        Err(size_error(size))
    } else if size % 8 != 0 {
        Err(EngineError::RecordingFailed)
    } else {
        Ok(mandelbrot_ops(size))
    }
}

/// What a triangle render of side `size` records, or the error it stops
/// with before anything is submitted.
pub open spec fn triangle_outcome(size: u32) -> Result<Seq<Op>, EngineError> {
    if !square_ok(size) {
        Err(size_error(size))
    } else {
        Ok(triangle_ops())
    }
}

pub open spec fn storage_usage() -> ImageUsage {
    ImageUsage { storage: true, render_target: false, copy_source: true }
}

pub open spec fn render_usage() -> ImageUsage {
    ImageUsage { storage: true, render_target: true, copy_source: true }
}

/// Prepares a Mandelbrot render of side `size` on `queue_family`: builds
/// the compute pipeline, allocates the image and host buffer, binds the
/// image, and records the dispatch and the copy. Fails with
/// `AllocationFailed` where the square cannot be allocated and, before
/// anything is submitted, with `RecordingFailed` where `size` is not a
/// multiple of the workgroup side.
pub fn make_mandelbrot(queue_family: u32, size: u32) -> (r: Result<ComputeJob, EngineError>)
    ensures
        r is Ok <==> mandelbrot_outcome(size) is Ok,
        r matches Err(e) ==> mandelbrot_outcome(size) == Err::<Seq<Op>, EngineError>(e),
        r matches Ok(job) ==> {
            &&& job.image == target_image(queue_family, size, storage_usage())
            &&& job.buffer.byte_len as nat == size as nat * size as nat * 4
            &&& job.buffer.id == READBACK_BUFFER
            &&& job.commands.queue_family == queue_family
            &&& job.commands.ops@ == mandelbrot_ops(size)
            &&& job.commands.wf()
            &&& job.pipeline.kind == (PipelineKind::Compute { local_size: LocalSize { x: 8, y: 8, z: 1 } })
            &&& job.set.pipeline_id == job.pipeline.id
            &&& job.set.bindings@ == seq![Binding { slot: 0, resource: ResourceRef::Image { id: TARGET_IMAGE } }]
        },
{
    let usage = ImageUsage { storage: true, render_target: false, copy_source: true };
    let (image, buffer) = make_img_and_buf(queue_family, size, usage)?;
    let program = mandelbrot_program();
    let layout = vec![SlotKind::StorageImage];
    assert(layout@ =~= program.slots@);
    let pipeline = build_compute_pipeline(PIPELINE, &program, layout)?;
    let bindings = vec![Binding { slot: 0, resource: ResourceRef::Image { id: image.id } }];
    assert(bindings@ =~= seq![Binding { slot: 0, resource: ResourceRef::Image { id: TARGET_IMAGE } }]);
    let set = bind(&pipeline, bindings)?;
    let mut rec = Recorder::new(queue_family);
    rec.dispatch(&pipeline, &set, &image);
    rec.copy_image_to_buffer(&image, &buffer);
    proof {
        if size % 8 == 0 {
            assert(rec.ops@ =~= mandelbrot_ops(size));
        }
    }
    let commands = rec.finish()?;
    Ok(ComputeJob { image, buffer, pipeline, set, commands })
}

/// For every positive side that is a multiple of the workgroup side, the
/// Mandelbrot commands are well ordered, their workgroups cover the image
/// exactly, and once the fence signals, reading the host buffer back yields
/// all of its size * size * 4 bytes.
pub proof fn lemma_mandelbrot_covers(size: u32, memory: Seq<u8>)
    requires
        square_ok(size),
        size % 8 == 0,
        memory.len() == size as nat * size as nat * 4,
    ensures
        well_ordered(mandelbrot_ops(size)),
        mandelbrot_ops(size)[0] matches Op::Dispatch { groups_x, groups_y, groups_z, .. }
            && groups_x * 8 == size && groups_y * 8 == size && groups_z == 1,
        readback_spec(FenceState::Pending, WaitOutcome::Completed, memory, memory.len())
            == (FenceState::Signaled, Ok::<Seq<u8>, EngineError>(memory)),
{
    let ops = mandelbrot_ops(size);
    assert(ops.drop_last() =~= seq![ops[0]]);
    assert(ops.drop_last().drop_last() =~= Seq::<Op>::empty());
    reveal_with_fuel(scan, 3);
    assert(memory.subrange(0, memory.len() as int) =~= memory);
}

/// The triangle commands are well ordered: the pass is closed before the
/// copy, and nothing is drawn after it.
pub proof fn lemma_triangle_ordered()
    ensures
        well_ordered(triangle_ops()),
{
    let ops = triangle_ops();
    assert(ops.drop_last() =~= seq![ops[0], ops[1], ops[2]]);
    assert(ops.drop_last().drop_last() =~= seq![ops[0], ops[1]]);
    assert(ops.drop_last().drop_last().drop_last() =~= seq![ops[0]]);
    assert(ops.drop_last().drop_last().drop_last().drop_last() =~= Seq::<Op>::empty());
    reveal_with_fuel(scan, 5);
}

/// A side that is not a multiple of the workgroup side never reaches
/// submission: the render stops with `RecordingFailed`, or with
/// `AllocationFailed` where the square's bytes are not addressable at all.
pub proof fn lemma_unaligned_size_fails(size: u32)
    requires
        size % 8 != 0,
    ensures
        mandelbrot_outcome(size) is Err,
        square_ok(size) ==> mandelbrot_outcome(size) == Err::<Seq<Op>, EngineError>(EngineError::RecordingFailed),
{
}

/// Reading a Mandelbrot render back without waiting first yields the same
/// bytes as waiting and then reading back: the copy is recorded after the
/// dispatch, and the readback waits for the fence itself, then returns the
/// whole mapped buffer.
pub proof fn lemma_mandelbrot_readback_without_wait(size: u32, memory: Seq<u8>, later: WaitOutcome)
    requires
        mandelbrot_outcome(size) is Ok,
        memory.len() == size as nat * size as nat * 4,
    ensures
        mandelbrot_outcome(size).unwrap()[0] is Dispatch,
        mandelbrot_outcome(size).unwrap()[1] is CopyImageToBuffer,
        readback_spec(FenceState::Pending, WaitOutcome::Completed, memory, memory.len())
            == readback_spec(wait_spec(FenceState::Pending, WaitOutcome::Completed).0, later, memory, memory.len()),
        readback_spec(FenceState::Pending, WaitOutcome::Completed, memory, memory.len())
            == (FenceState::Signaled, Ok::<Seq<u8>, EngineError>(memory)),
{
    lemma_readback_waits(FenceState::Pending, WaitOutcome::Completed, later, memory, memory.len());
    assert(memory.subrange(0, memory.len() as int) =~= memory);
}

/// Reading a triangle render back without waiting first yields the same
/// bytes as waiting and then reading back: the copy is recorded after the
/// render pass ends, and the readback waits for the fence itself, then
/// returns the whole mapped buffer.
pub proof fn lemma_triangle_readback_without_wait(size: u32, memory: Seq<u8>, later: WaitOutcome)
    requires
        triangle_outcome(size) is Ok,
        memory.len() == size as nat * size as nat * 4,
    ensures
        triangle_outcome(size).unwrap()[2] is EndRenderPass,
        triangle_outcome(size).unwrap()[3] is CopyImageToBuffer,
        readback_spec(FenceState::Pending, WaitOutcome::Completed, memory, memory.len())
            == readback_spec(wait_spec(FenceState::Pending, WaitOutcome::Completed).0, later, memory, memory.len()),
        readback_spec(FenceState::Pending, WaitOutcome::Completed, memory, memory.len())
            == (FenceState::Signaled, Ok::<Seq<u8>, EngineError>(memory)),
{
    lemma_readback_waits(FenceState::Pending, WaitOutcome::Completed, later, memory, memory.len());
    assert(memory.subrange(0, memory.len() as int) =~= memory);
}

/// Prepares a triangle render of side `size` on `queue_family`: allocates
/// the image and host buffer, builds the graphics pipeline for them, and
/// records a render pass that clears to opaque blue and draws the triangle,
/// then the copy. Fails with `AllocationFailed` exactly where the square
/// cannot be allocated.
pub fn make_triangle(queue_family: u32, size: u32) -> (r: Result<DrawJob, EngineError>)
    ensures
        r is Ok <==> triangle_outcome(size) is Ok,
        r matches Err(e) ==> triangle_outcome(size) == Err::<Seq<Op>, EngineError>(e),
        r matches Ok(job) ==> {
            &&& job.image == target_image(queue_family, size, render_usage())
            &&& job.buffer.byte_len as nat == size as nat * size as nat * 4
            &&& job.buffer.id == READBACK_BUFFER
            &&& job.commands.queue_family == queue_family
            &&& job.commands.ops@ == triangle_ops()
            &&& job.commands.wf()
            &&& job.pipeline.kind == (PipelineKind::Graphics {
                render_pass: single_pass(Format::R8G8B8A8Unorm),
                viewport: Viewport { x: 0, y: 0, width: size, height: size },
            })
            &&& job.pipeline.vertex_layout@ == seq![VertexFormat::Vec2F32]
        },
{
    let usage = ImageUsage { storage: true, render_target: true, copy_source: true };
    let (image, buffer) = make_img_and_buf(queue_family, size, usage)?;
    let vs = triangle_vertex_program();
    let fs = triangle_fragment_program();
    let vertex_layout = vec![VertexFormat::Vec2F32];
    assert(vertex_layout@ =~= vs.vertex_inputs@);
    let pipeline = build_graphics_pipeline(PIPELINE, &vs, &fs, vertex_layout, &image)?;
    let mut rec = Recorder::new(queue_family);
    rec.begin_render_pass(&pipeline, &image, clear_blue());
    rec.draw(&pipeline, TRIANGLE_VERTICES);
    rec.end_render_pass();
    rec.copy_image_to_buffer(&image, &buffer);
    proof {
        assert(rec.ops@ =~= triangle_ops());
    }
    let commands = rec.finish()?;
    Ok(DrawJob { image, buffer, pipeline, commands })
}

} // verus!
