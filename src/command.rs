use vstd::prelude::*;

use crate::binding::BindingSet;
use crate::error::EngineError;
use crate::pipeline::{Pipeline, PipelineKind, RenderPassDesc, Viewport};
use crate::resource::{HostBuffer, Image};

verus! {

/// An RGBA colour with 8 bits per channel.
#[derive(Debug, Clone, Copy, PartialEq, Eq, Structural)]
pub struct ClearColor {
    pub r: u8,
    pub g: u8,
    pub b: u8,
    pub a: u8,
}

/// One recorded GPU operation.
#[derive(Debug, Clone, Copy, PartialEq, Eq, Structural)]
pub enum Op {
    Dispatch { pipeline: u32, groups_x: u32, groups_y: u32, groups_z: u32 },
    BeginRenderPass { image: u32, clear: ClearColor },
    Draw { pipeline: u32, vertex_count: u32 },
    EndRenderPass,
    CopyImageToBuffer { image: u32, buffer: u32 },
}

/// Where a recording stands after a sequence of operations.
pub struct Scan {
    pub in_pass: bool,
    pub copied: bool,
}

/// The effect of one operation on a recording, or `None` where the
/// operation may not follow: a write (dispatch, draw, render pass begin)
/// never follows a copy, a draw only stands inside a render pass, passes do
/// not nest, and a copy never stands inside a pass.
pub open spec fn scan_step(s: Scan, op: Op) -> Option<Scan> {
    match op {
        Op::Dispatch { .. } => if !s.in_pass && !s.copied { Some(s) } else { None },
        Op::BeginRenderPass { .. } => if !s.in_pass && !s.copied { Some(Scan { in_pass: true, copied: false }) } else { None },
        Op::Draw { .. } => if s.in_pass && !s.copied { Some(s) } else { None },
        Op::EndRenderPass => if s.in_pass { Some(Scan { in_pass: false, copied: s.copied }) } else { None },
        Op::CopyImageToBuffer { .. } => if !s.in_pass { Some(Scan { in_pass: false, copied: true }) } else { None },
    }
}

/// Runs `scan_step` over `ops` from an empty recording.
pub open spec fn scan(ops: Seq<Op>) -> Option<Scan>
    decreases ops.len(),
{
    if ops.len() == 0 {
        Some(Scan { in_pass: false, copied: false })
    } else {
        match scan(ops.drop_last()) {
            None => None,
            Some(s) => scan_step(s, ops.last()),
        }
    }
}

/// A complete recording: every operation admissible where it stands and no
/// render pass left open.
pub open spec fn well_ordered(ops: Seq<Op>) -> bool {
    scan(ops) matches Some(s) && !s.in_pass
}

pub open spec fn is_write(op: Op) -> bool {
    op is Dispatch || op is BeginRenderPass || op is Draw
}

/// In a recording that scans, every copy is remembered and no write
/// (dispatch, render pass begin, draw) stands after any copy: an image is
/// copied out only once everything written before it is recorded.
pub proof fn lemma_no_write_after_copy(ops: Seq<Op>)
    requires
        scan(ops) is Some,
    ensures
        forall|i: int| 0 <= i < ops.len() && (#[trigger] ops[i]) is CopyImageToBuffer ==> scan(ops).unwrap().copied,
        forall|i: int, j: int| 0 <= i < j < ops.len() && (#[trigger] ops[i]) is CopyImageToBuffer ==> !is_write(#[trigger] ops[j]),
    decreases ops.len(),
{
    if ops.len() > 0 {
        let pre = ops.drop_last();
        lemma_no_write_after_copy(pre);
        let s0 = scan(pre).unwrap();
        assert(scan(ops) == scan_step(s0, ops.last()));
        let last = ops.len() - 1;
        assert forall|i: int| 0 <= i < ops.len() && (#[trigger] ops[i]) is CopyImageToBuffer implies scan(ops).unwrap().copied by {
            if i < last {
                assert(pre[i] == ops[i]);
            }
        }
        assert forall|i: int, j: int| 0 <= i < j < ops.len() && (#[trigger] ops[i]) is CopyImageToBuffer implies !is_write(#[trigger] ops[j]) by {
            assert(pre[i] == ops[i]);
            if j < last {
                assert(pre[j] == ops[j]);
            }
        }
    }
}

/// A sealed, replayable command buffer for one queue family.
pub struct CommandBuffer {
    pub queue_family: u32,
    pub ops: Vec<Op>,
}

impl CommandBuffer {
    pub open spec fn wf(&self) -> bool {
        well_ordered(self.ops@)
    }
}

/// Records operations in order. The first inadmissible call puts the
/// recorder in a failed state; every later call leaves it unchanged, and
/// `finish` returns the first error.
pub struct Recorder {
    pub queue_family: u32,
    pub ops: Vec<Op>,
    pub in_pass: bool,
    pub copied: bool,
    pub failed: Option<EngineError>,
}

/// The recorder after `op` was offered: appended where `ok` holds, the
/// recording failed otherwise, unchanged where it had failed before.
pub open spec fn offered(old: &Recorder, new: &Recorder, ok: bool, op: Op) -> bool {
    &&& new.queue_family == old.queue_family
    &&& if old.failed is Some {
        new.ops@ == old.ops@ && new.failed == old.failed && new.in_pass == old.in_pass && new.copied == old.copied
    } else if ok {
        &&& new.ops@ == old.ops@.push(op)
        &&& new.failed is None
        &&& scan_step(Scan { in_pass: old.in_pass, copied: old.copied }, op)
            == Some(Scan { in_pass: new.in_pass, copied: new.copied })
    } else {
        new.ops@ == old.ops@ && new.failed == Some(EngineError::RecordingFailed) && new.in_pass == old.in_pass
            && new.copied == old.copied
    }
}

/// Whether `op` may follow a recording that stands at `in_pass`, `copied`.
pub open spec fn admissible(in_pass: bool, copied: bool, op: Op) -> bool {
    scan_step(Scan { in_pass, copied }, op) is Some
}

/// Workgroup counts for a `width` x `height` dispatch, or `None` where the
/// pipeline is not a compute pipeline or the sides do not divide evenly by
/// its workgroup size.
pub open spec fn dispatch_groups(p: &Pipeline, width: u32, height: u32) -> Option<(u32, u32, u32)> {
    match p.kind {
        PipelineKind::Compute { local_size } => {
            if local_size.x > 0 && local_size.y > 0 && width % local_size.x == 0 && height % local_size.y == 0 {
                Some(((width / local_size.x) as u32, (height / local_size.y) as u32, 1u32))
            } else {
                None
            }
        },
        PipelineKind::Graphics { .. } => None,
    }
}

/// Whether a render pass of `p` may target `image`.
pub open spec fn pass_target_ok(p: &Pipeline, image: &Image) -> bool {
    match p.kind {
        PipelineKind::Graphics { render_pass, viewport } => {
            &&& render_pass.format == image.format
            &&& viewport == (Viewport { x: 0, y: 0, width: image.width, height: image.height })
            &&& image.usage.render_target
        },
        PipelineKind::Compute { .. } => false,
    }
}

impl Recorder {
    pub open spec fn wf(&self) -> bool {
        self.failed is None ==> scan(self.ops@) == Some(Scan { in_pass: self.in_pass, copied: self.copied })
    }

    /// Starts an empty recording for `queue_family`.
    pub fn new(queue_family: u32) -> (r: Recorder)
        ensures
            r.wf(),
            r.queue_family == queue_family,
            r.ops@.len() == 0,
            !r.in_pass && !r.copied,
            r.failed is None,
    {
        Recorder { queue_family, ops: Vec::new(), in_pass: false, copied: false, failed: None }
    }

    fn offer(&mut self, ok: bool, op: Op)
        requires
            old(self).wf(),
        ensures
            final(self).wf(),
            offered(&*old(self), &*final(self), ok && admissible(old(self).in_pass, old(self).copied, op), op),
    {
        if self.failed.is_some() {
            return;
        }
        if !ok || !self.admits(op) {
            self.failed = Some(EngineError::RecordingFailed);
            return;
        }
        proof {
            let ghost prev = self.ops@;
            assert(prev.push(op).drop_last() =~= prev);
        }
        self.ops.push(op);
        match op {
            Op::BeginRenderPass { .. } => {
                self.in_pass = true;
                self.copied = false;
            },
            Op::EndRenderPass => {
                self.in_pass = false;
            },
            Op::CopyImageToBuffer { .. } => {
                self.in_pass = false;
                self.copied = true;
            },
            _ => {},
        }
    }

    fn admits(&self, op: Op) -> (r: bool)
        ensures
            r == admissible(self.in_pass, self.copied, op),
    {
        match op {
            Op::Dispatch { .. } => !self.in_pass && !self.copied,
            Op::BeginRenderPass { .. } => !self.in_pass && !self.copied,
            Op::Draw { .. } => self.in_pass && !self.copied,
            Op::EndRenderPass => self.in_pass,
            Op::CopyImageToBuffer { .. } => !self.in_pass,
        }
    }

    /// Records a dispatch of `pipeline` with `set` over the whole of
    /// `image`: one workgroup per workgroup-sized tile. Fails with
    /// `RecordingFailed` where the image's sides do not divide evenly by the
    /// workgroup size, `set` was not made for `pipeline`, or a dispatch may
    /// not stand here.
    pub fn dispatch(&mut self, pipeline: &Pipeline, set: &BindingSet, image: &Image)
        requires
            old(self).wf(),
        ensures
            final(self).wf(),
            ({
                let groups = dispatch_groups(pipeline, image.width, image.height);
                let op = match groups {
                    Some(g) => Op::Dispatch { pipeline: pipeline.id, groups_x: g.0, groups_y: g.1, groups_z: g.2 },
                    None => Op::Dispatch { pipeline: pipeline.id, groups_x: 0, groups_y: 0, groups_z: 0 },
                };
                offered(&*old(self), &*final(self),
                    groups is Some && set.pipeline_id == pipeline.id && admissible(old(self).in_pass, old(self).copied, op), op)
            }),
    {
        let (ok, op) = match pipeline.kind {
            PipelineKind::Compute { local_size } => {
                if local_size.x > 0 && local_size.y > 0 && image.width % local_size.x == 0
                    && image.height % local_size.y == 0 {
                    (set.pipeline_id == pipeline.id, Op::Dispatch {
                        pipeline: pipeline.id,
                        groups_x: image.width / local_size.x,
                        groups_y: image.height / local_size.y,
                        groups_z: 1,
                    })
                } else {
                    (false, Op::Dispatch { pipeline: pipeline.id, groups_x: 0, groups_y: 0, groups_z: 0 })
                }
            },
            PipelineKind::Graphics { .. } => {
                (false, Op::Dispatch { pipeline: pipeline.id, groups_x: 0, groups_y: 0, groups_z: 0 })
            },
        };
        self.offer(ok, op);
    }

    /// Begins a render pass of `pipeline` on `image`, clearing it to `clear`.
    /// Fails with `RecordingFailed` where `image` does not fit the pipeline's
    /// render pass and viewport, or a pass may not begin here.
    pub fn begin_render_pass(&mut self, pipeline: &Pipeline, image: &Image, clear: ClearColor)
        requires
            old(self).wf(),
        ensures
            final(self).wf(),
            offered(&*old(self), &*final(self),
                pass_target_ok(pipeline, image) && admissible(old(self).in_pass, old(self).copied,
                Op::BeginRenderPass { image: image.id, clear }), Op::BeginRenderPass { image: image.id, clear }),
    {
        let ok = match pipeline.kind {
            PipelineKind::Graphics { render_pass, viewport } => {
                render_pass.format == image.format && viewport.x == 0 && viewport.y == 0
                    && viewport.width == image.width && viewport.height == image.height && image.usage.render_target
            },
            PipelineKind::Compute { .. } => false,
        };
        self.offer(ok, Op::BeginRenderPass { image: image.id, clear });
    }

    /// Draws `vertex_count` vertices with graphics `pipeline` inside the open
    /// render pass.
    pub fn draw(&mut self, pipeline: &Pipeline, vertex_count: u32)
        requires
            old(self).wf(),
        ensures
            final(self).wf(),
            offered(&*old(self), &*final(self),
                pipeline.kind is Graphics && admissible(old(self).in_pass, old(self).copied,
                Op::Draw { pipeline: pipeline.id, vertex_count }), Op::Draw { pipeline: pipeline.id, vertex_count }),
    {
        let ok = match pipeline.kind {
            PipelineKind::Graphics { .. } => true,
            PipelineKind::Compute { .. } => false,
        };
        self.offer(ok, Op::Draw { pipeline: pipeline.id, vertex_count });
    }

    /// Ends the open render pass.
    pub fn end_render_pass(&mut self)
        requires
            old(self).wf(),
        ensures
            final(self).wf(),
            offered(&*old(self), &*final(self), admissible(old(self).in_pass, old(self).copied, Op::EndRenderPass),
                Op::EndRenderPass),
    {
        self.offer(true, Op::EndRenderPass);
    }

    /// Copies all of `image` into `buffer`. Fails with `RecordingFailed`
    /// where the buffer is smaller than the image or a render pass is open.
    /// No write may be recorded after a copy.
    pub fn copy_image_to_buffer(&mut self, image: &Image, buffer: &HostBuffer)
        requires
            old(self).wf(),
            image.wf(),
        ensures
            final(self).wf(),
            offered(&*old(self), &*final(self),
                buffer.byte_len >= image.byte_len() && admissible(old(self).in_pass, old(self).copied,
                Op::CopyImageToBuffer { image: image.id, buffer: buffer.id }),
                Op::CopyImageToBuffer { image: image.id, buffer: buffer.id }),
    {
        let need = crate::resource::checked_surface_len(image.width, image.height, image.format);
        let ok = match need {
            Some(n) => buffer.byte_len >= n,
            None => false,
        };
        self.offer(ok, Op::CopyImageToBuffer { image: image.id, buffer: buffer.id });
    }

    /// Seals the recording. Returns the first error of the recording, or
    /// `RecordingFailed` where a render pass is still open.
    pub fn finish(self) -> (r: Result<CommandBuffer, EngineError>)
        requires
            self.wf(),
        ensures
            self.failed matches Some(e) ==> r == Err::<CommandBuffer, EngineError>(e),
            self.failed is None && self.in_pass ==> r == Err::<CommandBuffer, EngineError>(EngineError::RecordingFailed),
            self.failed is None && !self.in_pass ==> (r matches Ok(c) && c.ops@ == self.ops@
                && c.queue_family == self.queue_family),
            r matches Ok(c) ==> c.wf(),
    {
        match self.failed {
            Some(e) => Err(e),
            None => {
                if self.in_pass {
                    Err(EngineError::RecordingFailed)
                } else {
                    Ok(CommandBuffer { queue_family: self.queue_family, ops: self.ops })
                }
            },
        }
    }
}

} // verus!
