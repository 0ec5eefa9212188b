//! The decisions of the export: which modifier and memory layout a device image gets, and
//! the buffer descriptor that describes the exported image to a consumer.
use crate::capability::{find_modifier, FormatCapabilities, ModifierProperties};
use crate::dmatex::{Dmatex, DmatexPlane, Resolution};
use crate::format_mapping::{
    drm_to_native, fourcc_code, fourcc_of_code, fourcc_to_code, lemma_fourcc_code_round_trip,
    native_of_drm, wgpu_of_drm,
};
use crate::import::{
    image_format_of, import_error, lemma_supported_modifier_imports, descriptor_of,
    renderer_format_of, MemoryLayout, TextureDescription,
};
use drm_fourcc::DrmFourcc;
use vstd::prelude::*;

verus! {

/// Why an image could not be exported.
#[derive(Debug, Clone, Copy, PartialEq, Eq, Structural)]
pub enum ExportError {
    /// The FourCC has no Vulkan format.
    UnsupportedFormat,
    /// The device lists no modifier with which it can create an exportable image of the format,
    /// or the first one it lists defines no plane.
    NotSupportedByDevice,
    /// A driver call failed with this `VkResult`.
    Vulkan(i32),
}

/// How the exported image is created and its memory allocated.
#[derive(Debug, Clone, Copy, PartialEq, Eq, Structural)]
pub struct ExportPlan {
    pub vk_format: i32,
    /// The chosen modifier: the first that the device lists.
    pub modifier: ModifierProperties,
    pub memory: MemoryLayout,
}

impl ExportPlan {
    /// Number of file descriptors to retrieve from the driver: one per allocation. With
    /// combined memory the single descriptor is then duplicated for the other planes.
    pub open spec fn spec_fd_count(self) -> nat {
        match self.memory {
            MemoryLayout::Disjoint => self.modifier.plane_count as nat,
            MemoryLayout::Combined => 1,
        }
    }

    pub fn fd_count(&self) -> (r: u32)
        ensures
            r == self.spec_fd_count(),
    {
        match self.memory {
            MemoryLayout::Disjoint => self.modifier.plane_count,
            MemoryLayout::Combined => 1,
        }
    }
}

/// Where the descriptor of one exported plane comes from.
#[derive(Debug, Clone, Copy, PartialEq, Eq, Structural)]
pub enum ExportFd {
    /// Retrieved from memory allocation `k`.
    FromAllocation(usize),
    /// A duplicate of the descriptor of plane 0, which shares its one allocation.
    DuplicateOfFirst,
}

impl ExportPlan {
    /// Where plane `i`'s descriptor comes from: with disjoint memory, from the plane's own
    /// allocation; with combined memory, plane 0 retrieves the single allocation's descriptor
    /// and every other plane duplicates it.
    pub open spec fn spec_fd_source(self, i: nat) -> ExportFd {
        match self.memory {
            MemoryLayout::Disjoint => ExportFd::FromAllocation(i as usize),
            MemoryLayout::Combined => if i == 0 {
                ExportFd::FromAllocation(0)
            } else {
                ExportFd::DuplicateOfFirst
            },
        }
    }

    pub fn fd_source(&self, i: usize) -> (r: ExportFd)
        ensures
            r == self.spec_fd_source(i as nat),
    {
        match self.memory {
            MemoryLayout::Disjoint => ExportFd::FromAllocation(i),
            MemoryLayout::Combined => if i == 0 {
                ExportFd::FromAllocation(0)
            } else {
                ExportFd::DuplicateOfFirst
            },
        }
    }
}

/// Each plane's descriptor is retrieved from an allocation that exists, no allocation is
/// asked twice, and a duplicate is made only when one allocation backs every plane.
pub proof fn lemma_export_fds_cover_planes(plan: ExportPlan)
    requires
        plan.modifier.plane_count >= 1,
    ensures
        forall|i: nat|
            i < plan.modifier.plane_count ==> match #[trigger] plan.spec_fd_source(i) {
                ExportFd::FromAllocation(k) => k < plan.spec_fd_count(),
                ExportFd::DuplicateOfFirst => plan.memory == MemoryLayout::Combined && i > 0,
            },
        forall|i: nat, j: nat|
            i < j < plan.modifier.plane_count && #[trigger] plan.spec_fd_source(i) is FromAllocation
                && #[trigger] plan.spec_fd_source(j) is FromAllocation ==> plan.spec_fd_source(i)
                != plan.spec_fd_source(j),
{
}

/// Chooses how to export an image of FourCC `format` on a device with capabilities `caps`.
pub fn plan_export(format: DrmFourcc, caps: &FormatCapabilities) -> (r: Result<ExportPlan, ExportError>)
    ensures
        native_of_drm(format) is None ==> r == Err::<ExportPlan, ExportError>(
            ExportError::UnsupportedFormat,
        ),
        native_of_drm(format) is Some && (!caps.image_supported || caps.modifiers@.len() == 0
            || caps.modifiers@[0].plane_count == 0) ==> r == Err::<ExportPlan, ExportError>(
            ExportError::NotSupportedByDevice,
        ),
        native_of_drm(format) is Some && caps.image_supported && caps.modifiers@.len() > 0
            && caps.modifiers@[0].plane_count >= 1 ==> r
            == Ok::<ExportPlan, ExportError>(
            ExportPlan {
                vk_format: native_of_drm(format)->Some_0,
                modifier: caps.modifiers@[0],
                memory: if caps.modifiers@[0].spec_is_disjoint() {
                    MemoryLayout::Disjoint
                } else {
                    MemoryLayout::Combined
                },
            },
        ),
{
    let vk_format = match drm_to_native(format) {
        Some(v) => v,
        None => return Err(ExportError::UnsupportedFormat),
    };
    if !caps.image_supported || caps.modifiers.len() == 0 || caps.modifiers[0].plane_count == 0 {
        return Err(ExportError::NotSupportedByDevice);
    }
    let modifier = caps.modifiers[0];
    let memory = if modifier.is_disjoint() {
        MemoryLayout::Disjoint
    } else {
        MemoryLayout::Combined
    };
    Ok(ExportPlan { vk_format, modifier, memory })
}

/// Whether `d` describes an image exported with `plan` as FourCC `format` at `res`, whose
/// planes carry the descriptors `fds` and lie at `layouts` (offset, stride).
pub open spec fn is_export_descriptor(
    d: Dmatex,
    plan: ExportPlan,
    format: DrmFourcc,
    res: Resolution,
    fds: Seq<i32>,
    layouts: Seq<(u32, i32)>,
) -> bool {
    &&& d.format == fourcc_code(format)
    &&& d.res == res
    &&& !d.flip_y
    &&& !d.srgb
    &&& d.planes@.len() == fds.len()
    &&& forall|i: int|
        0 <= i < fds.len() ==> {
            &&& #[trigger] d.planes@[i].dmabuf_fd == fds[i]
            &&& d.planes@[i].modifier == plan.modifier.modifier
            &&& d.planes@[i].offset == layouts[i].0
            &&& d.planes@[i].stride == layouts[i].1
        }
}

/// Packages an exported image as a buffer descriptor: one plane per plane of the chosen
/// modifier, each with its own descriptor (see [`ExportPlan::fd_source`]).
pub fn export_descriptor(
    plan: &ExportPlan,
    format: DrmFourcc,
    res: Resolution,
    fds: Vec<i32>,
    layouts: &Vec<(u32, i32)>,
) -> (r: Dmatex)
    requires
        fds@.len() == plan.modifier.plane_count,
        layouts@.len() == plan.modifier.plane_count,
    ensures
        r.planes@.len() == plan.modifier.plane_count,
        is_export_descriptor(r, *plan, format, res, fds@, layouts@),
{
    let mut planes: Vec<DmatexPlane> = Vec::new();
    let mut i: usize = 0;
    while i < fds.len()
        invariant
            fds@.len() == layouts@.len(),
            i <= fds@.len(),
            planes@.len() == i,
            forall|j: int|
                0 <= j < i ==> {
                    &&& #[trigger] planes@[j].dmabuf_fd == fds@[j]
                    &&& planes@[j].modifier == plan.modifier.modifier
                    &&& planes@[j].offset == layouts@[j].0
                    &&& planes@[j].stride == layouts@[j].1
                },
        decreases fds@.len() - i,
    {
        planes.push(
            DmatexPlane {
                dmabuf_fd: fds[i],
                modifier: plan.modifier.modifier,
                offset: layouts[i].0,
                stride: layouts[i].1,
            },
        );
        i += 1;
    }
    Dmatex { planes, res, format: fourcc_to_code(format), flip_y: false, srgb: false }
}

/// An image exported with a plan for FourCC `format` imports on a second device that accepts
/// the chosen modifier with the same plane count, as long as the renderer knows the format:
/// the import passes every check and its texture has the exported resolution and format.
pub proof fn lemma_export_import_round_trip(
    format: DrmFourcc,
    caps: FormatCapabilities,
    plan: ExportPlan,
    res: Resolution,
    d: Dmatex,
    fds: Seq<i32>,
    layouts: Seq<(u32, i32)>,
    other: FormatCapabilities,
)
    requires
        native_of_drm(format) is Some,
        caps.image_supported,
        caps.modifiers@.len() > 0,
        plan == (ExportPlan {
            vk_format: native_of_drm(format)->Some_0,
            modifier: caps.modifiers@[0],
            memory: if caps.modifiers@[0].spec_is_disjoint() {
                MemoryLayout::Disjoint
            } else {
                MemoryLayout::Combined
            },
        }),
        caps.modifiers@[0].plane_count >= 1,
        fds.len() == plan.modifier.plane_count,
        is_export_descriptor(d, plan, format, res, fds, layouts),
        wgpu_of_drm(format) is Some,
        other.image_supported,
        find_modifier(other.modifiers@, plan.modifier.modifier) is Some,
        find_modifier(other.modifiers@, plan.modifier.modifier)->Some_0.plane_count
            == plan.modifier.plane_count,
    ensures
        import_error(d, other) is None,
        image_format_of(fourcc_of_code(d.format)->Some_0, d.srgb) == Some(plan.vk_format),
        descriptor_of(d) == Ok::<TextureDescription, crate::import::ImportError>(
            TextureDescription {
                width: res.x,
                height: res.y,
                format: wgpu_of_drm(format)->Some_0,
            },
        ),
{
    lemma_fourcc_code_round_trip(format);
    assert forall|i: int| 0 <= i < d.planes@.len() implies #[trigger] d.planes@[i].modifier
        == plan.modifier.modifier by {
        assert(d.planes@[i].dmabuf_fd == fds[i]);
    }
    assert(renderer_format_of(format, false) == wgpu_of_drm(format));
    lemma_supported_modifier_imports(d, other, plan.modifier.modifier);
}

} // verus!
