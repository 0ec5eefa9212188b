//! The buffer descriptor: a shareable GPU image as it travels between processes.
use vstd::prelude::*;

verus! {

/// A DMA-BUF backed texture: one entry per memory plane, plus the image's shape.
///
/// The descriptor owns the file descriptors of its planes: whoever holds it is responsible for
/// either handing each one to the graphics driver or closing it.
#[derive(Debug)]
pub struct Dmatex {
    pub planes: Vec<DmatexPlane>,
    pub res: Resolution,
    /// DRM FourCC code of the pixel format.
    pub format: u32,
    /// Vertical flip hint for consumers; carried as metadata and never applied on import.
    pub flip_y: bool,
    /// If the format has an sRGB version, use that.
    pub srgb: bool,
}

#[derive(Debug, Clone, Copy, PartialEq, Eq, Structural)]
pub struct Resolution {
    pub x: u32,
    pub y: u32,
}

/// One memory plane of a [`Dmatex`].
#[derive(Debug)]
pub struct DmatexPlane {
    /// Raw file descriptor of the DMA-BUF that backs this plane.
    pub dmabuf_fd: i32,
    /// Tiling modifier of the plane's memory layout.
    pub modifier: u64,
    /// Byte offset of the plane inside the DMA-BUF.
    pub offset: u32,
    /// Row pitch in bytes.
    pub stride: i32,
}

} // verus!
