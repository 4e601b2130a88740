use vstd::prelude::*;

use crate::error::EngineError;

verus! {

/// Pixel formats the engine allocates images in.
#[derive(Debug, Clone, Copy, PartialEq, Eq, Structural)]
pub enum Format {
    /// Four 8-bit channels in red, green, blue, alpha order.
    R8G8B8A8Unorm,
}

pub open spec fn bytes_per_pixel_spec(f: Format) -> nat {
    match f {
        Format::R8G8B8A8Unorm => 4,
    }
}

/// Bytes that one pixel of `f` occupies in host memory.
pub fn bytes_per_pixel(f: Format) -> (r: usize)
    ensures
        r as nat == bytes_per_pixel_spec(f),
{
    match f {
        Format::R8G8B8A8Unorm => 4,
    }
}

/// Byte length of a tightly packed, row-major `width` x `height` surface.
pub open spec fn surface_len(width: nat, height: nat, f: Format) -> nat {
    width * height * bytes_per_pixel_spec(f)
}

/// Whether a surface can be allocated: both sides positive and its bytes
/// addressable in host memory.
pub open spec fn allocatable(width: nat, height: nat, f: Format) -> bool {
    width > 0 && height > 0 && surface_len(width, height, f) <= usize::MAX
}

/// How an image is going to be used.
#[derive(Debug, Clone, Copy, PartialEq, Eq, Structural)]
pub struct ImageUsage {
    pub storage: bool,
    pub render_target: bool,
    pub copy_source: bool,
}

/// A device-local 2D image, identified by `id`.
#[derive(Debug, Clone, Copy, PartialEq, Eq, Structural)]
pub struct Image {
    pub id: u32,
    pub width: u32,
    pub height: u32,
    pub format: Format,
    pub usage: ImageUsage,
    pub queue_family: u32,
}

impl Image {
    /// Byte length of the image's pixels, tightly packed.
    pub open spec fn byte_len(&self) -> nat {
        surface_len(self.width as nat, self.height as nat, self.format)
    }

    pub open spec fn wf(&self) -> bool {
        allocatable(self.width as nat, self.height as nat, self.format)
    }
}

/// Host-visible linear memory that mirrors an image.
#[derive(Debug, Clone, Copy, PartialEq, Eq, Structural)]
pub struct HostBuffer {
    pub id: u32,
    pub byte_len: usize,
    pub cpu_readable: bool,
}

/// Computes `width * height * bytes_per_pixel(f)`, or `None` where the
/// product does not fit in a `usize`.
pub fn checked_surface_len(width: u32, height: u32, f: Format) -> (r: Option<usize>)
    ensures
        r matches Some(n) <==> surface_len(width as nat, height as nat, f) <= usize::MAX,
        r matches Some(n) ==> n as nat == surface_len(width as nat, height as nat, f),
{
    let bpp = bytes_per_pixel(f);
    let w = width as usize;
    let h = height as usize;
    proof {
        assert(surface_len(width as nat, height as nat, f) == (w as int * h as int) * bpp as int);
    }
    match w.checked_mul(h) {
        None => {
            proof {
                assert(w as int * h as int > usize::MAX);
                assert((w as int * h as int) * bpp as int >= w as int * h as int) by (nonlinear_arith)
                    requires bpp >= 1, w as int * h as int >= 0;
            }
            None
        },
        Some(wh) => wh.checked_mul(bpp),
    }
}

/// Allocates a device-local image. Fails with `AllocationFailed` exactly when
/// a side is zero or the image's bytes would not be addressable.
pub fn create_image(id: u32, width: u32, height: u32, format: Format, usage: ImageUsage, queue_family: u32) -> (r: Result<Image, EngineError>)
    ensures
        r is Ok <==> allocatable(width as nat, height as nat, format),
        r matches Ok(img) ==> img == (Image { id, width, height, format, usage, queue_family }) && img.wf(),
        r matches Err(e) ==> e == (EngineError::AllocationFailed { width, height, format }),
{
    if width == 0 || height == 0 {
        return Err(EngineError::AllocationFailed { width, height, format });
    }
    match checked_surface_len(width, height, format) {
        None => Err(EngineError::AllocationFailed { width, height, format }),
        Some(_) => Ok(Image { id, width, height, format, usage, queue_family }),
    }
}

/// Allocates a host-visible buffer of `byte_len` bytes; its initial
/// contents are unspecified until a copy writes them.
pub fn create_host_buffer(id: u32, byte_len: usize, cpu_readable: bool) -> (r: HostBuffer)
    ensures
        r == (HostBuffer { id, byte_len, cpu_readable }),
{
    HostBuffer { id, byte_len, cpu_readable }
}

} // verus!
