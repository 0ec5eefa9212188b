//! The earlier form of the buffer descriptor: one tiling modifier for the whole buffer, and
//! planes that carry none.
use crate::dmatex::{self, Dmatex, DmatexPlane};
use vstd::prelude::*;

verus! {

#[derive(Debug)]
pub struct DmabufBuffer {
    pub planes: Vec<DmabufPlane>,
    pub res: Resolution,
    pub modifier: u64,
    pub format: u32,
    pub flip_y: bool,
}

#[derive(Debug, Clone, Copy, PartialEq, Eq, Structural)]
pub struct Resolution {
    pub x: u32,
    pub y: u32,
}

#[derive(Debug)]
pub struct DmabufPlane {
    pub dmabuf_fd: ZbusRawFd,
    pub offset: u32,
    pub stride: i32,
}

/// A raw file descriptor as the message bus carries it.
#[derive(Debug, PartialEq, Eq, Structural)]
pub struct ZbusRawFd(pub i32);

impl ZbusRawFd {
    pub fn as_raw_fd(&self) -> (r: i32)
        ensures
            r == self.0,
    {
        self.0
    }
}

impl From<i32> for ZbusRawFd {
    fn from(value: i32) -> (r: Self)
        ensures
            r.0 == value,
    {
        ZbusRawFd(value)
    }
}

impl vstd::std_specs::convert::FromSpecImpl<i32> for ZbusRawFd {
    open spec fn obeys_from_spec() -> bool {
        true
    }

    open spec fn from_spec(v: i32) -> ZbusRawFd {
        ZbusRawFd(v)
    }
}

/// Whether `t` is `b` in the per-plane form: each plane takes the buffer's modifier.
pub open spec fn converted(b: DmabufBuffer, t: Dmatex) -> bool {
    &&& t.planes@.len() == b.planes@.len()
    &&& forall|i: int|
        0 <= i < b.planes@.len() ==> {
            &&& #[trigger] t.planes@[i].dmabuf_fd == b.planes@[i].dmabuf_fd.0
            &&& t.planes@[i].modifier == b.modifier
            &&& t.planes@[i].offset == b.planes@[i].offset
            &&& t.planes@[i].stride == b.planes@[i].stride
        }
    &&& t.res.x == b.res.x
    &&& t.res.y == b.res.y
    &&& t.format == b.format
    &&& t.flip_y == b.flip_y
    &&& !t.srgb
}

impl DmabufBuffer {
    /// Rewrites a whole-buffer descriptor in the per-plane form. The file descriptors move
    /// into the result.
    pub fn into_dmatex(self) -> (r: Dmatex)
        ensures
            converted(self, r),
    {
        let ghost orig = self;
        let DmabufBuffer { planes, res, modifier, format, flip_y } = self;
        let mut src = planes;
        let mut out: Vec<DmatexPlane> = Vec::new();
        while src.len() > 0
            invariant
                out@.len() + src@.len() == orig.planes@.len(),
                forall|i: int|
                    0 <= i < src@.len() ==> #[trigger] src@[i] == orig.planes@[i + out@.len()],
                forall|i: int|
                    0 <= i < out@.len() ==> {
                        &&& #[trigger] out@[i].dmabuf_fd == orig.planes@[i].dmabuf_fd.0
                        &&& out@[i].modifier == modifier
                        &&& out@[i].offset == orig.planes@[i].offset
                        &&& out@[i].stride == orig.planes@[i].stride
                    },
                modifier == orig.modifier,
            decreases src@.len(),
        {
            let p = src.remove(0);
            out.push(
                DmatexPlane {
                    dmabuf_fd: p.dmabuf_fd.0,
                    modifier,
                    offset: p.offset,
                    stride: p.stride,
                },
            );
        }
        Dmatex {
            planes: out,
            res: dmatex::Resolution { x: res.x, y: res.y },
            format,
            flip_y,
            srgb: false,
        }
    }
}

} // verus!
