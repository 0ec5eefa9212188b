//! The decisions of the texture import: which formats the image gets, whether the descriptor
//! can be imported on a device at all, how its memory is laid out, and which memory type
//! receives it. The graphics calls themselves are made by the caller, following the plan.
use crate::capability::{find_modifier, FormatCapabilities, ModifierProperties};
use crate::dmatex::{Dmatex, DmatexPlane};
use crate::format_mapping::{
    fourcc_from_code, fourcc_of_code, fourcc_to_wgpu, drm_to_native, native_of_drm, srgb_of_native,
    to_srgb_variant, wgpu_of_drm,
};
use drm_fourcc::{DrmFourcc, UnrecognizedFourcc};
use vstd::prelude::*;
use wgpu::TextureFormat;

verus! {

/// Why a descriptor could not be imported.
#[derive(Debug, Clone, Copy, PartialEq, Eq)]
pub enum ImportError {
    /// The FourCC has no Vulkan format.
    VulkanIncompatibleFormat,
    /// The FourCC has no format that the renderer can sample.
    WgpuIncompatibleFormat,
    /// A plane's tiling modifier is not accepted by the device for this format.
    ModifierInvalid,
    /// The format code is not a DRM FourCC.
    UnrecognizedFourcc(UnrecognizedFourcc),
    /// The render device is not backed by Vulkan.
    NotVulkan,
    /// No memory type of the device can receive the imported memory.
    NoValidMemoryTypes,
    /// The number of planes differs from the number the modifier defines.
    IncorrectNumberOfPlanes,
    /// The descriptor has no planes.
    NoPlanes,
    /// The device cannot create DMA-BUF backed, modifier-tiled images of the format.
    NotSupportedByDevice,
    /// A driver call failed with this `VkResult`.
    Vulkan(i32),
}

/// The points of the render schedule where imported textures are handled: after the
/// renderer prepares its own images, the registry's entries are swapped into their texture
/// slots; the acquire barrier follows, and the release barrier runs at cleanup.
#[derive(Clone, Copy, Debug, Hash, PartialEq, Eq, Structural)]
pub enum DmatexRenderSystemSet {
    InsertIntoGpuImages,
    AcquireDmatexs,
    ReleaseDmatexs,
}

#[derive(Clone, Copy, Debug, PartialEq, Eq, Structural)]
pub enum DmatexUsage {
    Sampling,
}

/// Shape and format of the texture that stands for an imported buffer.
#[derive(Debug, Clone, Copy, PartialEq, Eq)]
pub struct TextureDescription {
    pub width: u32,
    pub height: u32,
    pub format: TextureFormat,
}

/// The sRGB twin of a renderer format, among the formats that FourCCs map to.
pub open spec fn renderer_srgb_of(w: TextureFormat) -> Option<TextureFormat> {
    match w {
        TextureFormat::Rgba8Unorm => Some(TextureFormat::Rgba8UnormSrgb),
        TextureFormat::Bgra8Unorm => Some(TextureFormat::Bgra8UnormSrgb),
        _ => None,
    }
}

fn renderer_srgb(w: TextureFormat) -> (r: Option<TextureFormat>)
    ensures
        r == renderer_srgb_of(w),
{
    match w {
        TextureFormat::Rgba8Unorm => Some(TextureFormat::Rgba8UnormSrgb),
        TextureFormat::Bgra8Unorm => Some(TextureFormat::Bgra8UnormSrgb),
        _ => None,
    }
}

/// The Vulkan format of an image of FourCC `f`: when sRGB is asked for, the sRGB variant of
/// its native format wherever one exists, else the native format itself.
pub open spec fn image_format_of(f: DrmFourcc, srgb: bool) -> Option<i32> {
    match native_of_drm(f) {
        None => None,
        Some(n) => if srgb && srgb_of_native(n) is Some {
            srgb_of_native(n)
        } else {
            Some(n)
        },
    }
}

/// The renderer format of a texture of FourCC `f`: when sRGB is asked for, the sRGB variant
/// of its renderer format wherever the renderer has one, else the renderer format itself.
pub open spec fn renderer_format_of(f: DrmFourcc, srgb: bool) -> Option<TextureFormat> {
    match wgpu_of_drm(f) {
        None => None,
        Some(w) => if srgb && renderer_srgb_of(w) is Some {
            renderer_srgb_of(w)
        } else {
            Some(w)
        },
    }
}

/// The Vulkan format to create the image of FourCC `f` with.
pub fn image_format(f: DrmFourcc, srgb: bool) -> (r: Option<i32>)
    ensures
        r == image_format_of(f, srgb),
{
    match drm_to_native(f) {
        None => None,
        Some(n) => {
            if srgb {
                let s = to_srgb_variant(n);
                if s.is_some() {
                    return s;
                }
            }
            Some(n)
        },
    }
}

/// The renderer format that views the image of FourCC `f`.
pub fn renderer_format(f: DrmFourcc, srgb: bool) -> (r: Option<TextureFormat>)
    ensures
        r == renderer_format_of(f, srgb),
{
    match fourcc_to_wgpu(f) {
        None => None,
        Some(w) => {
            if srgb {
                let s = renderer_srgb(w);
                if s.is_some() {
                    return s;
                }
            }
            Some(w)
        },
    }
}

/// The renderer format a placeholder falls back to when the descriptor's format has none.
pub open spec fn fallback_format() -> TextureFormat {
    TextureFormat::Rgba8Unorm
}

/// The placeholder texture that a submitted descriptor is shown as until it is imported: the
/// descriptor's size, in its renderer format, or in the fallback format when its code is no
/// FourCC or the FourCC has no renderer format.
pub open spec fn placeholder_of(buf: Dmatex) -> TextureDescription {
    let format = match fourcc_of_code(buf.format) {
        Some(f) => match renderer_format_of(f, buf.srgb) {
            Some(w) => w,
            None => fallback_format(),
        },
        None => fallback_format(),
    };
    TextureDescription { width: buf.res.x, height: buf.res.y, format }
}

/// Describes the placeholder texture of `buf`; see [`placeholder_of`].
pub fn placeholder_descriptor(buf: &Dmatex) -> (r: TextureDescription)
    ensures
        r == placeholder_of(*buf),
{
    let format = match fourcc_from_code(buf.format) {
        Ok(f) => match renderer_format(f, buf.srgb) {
            Some(w) => w,
            None => TextureFormat::Rgba8Unorm,
        },
        Err(_) => TextureFormat::Rgba8Unorm,
    };
    TextureDescription { width: buf.res.x, height: buf.res.y, format }
}

/// The texture that stands for `buf` in the renderer, or why its format rules it out.
pub open spec fn descriptor_of(buf: Dmatex) -> Result<TextureDescription, ImportError> {
    match fourcc_of_code(buf.format) {
        None => Err(ImportError::UnrecognizedFourcc(UnrecognizedFourcc(buf.format))),
        Some(f) => match renderer_format_of(f, buf.srgb) {
            None => Err(ImportError::WgpuIncompatibleFormat),
            Some(w) => Ok(TextureDescription { width: buf.res.x, height: buf.res.y, format: w }),
        },
    }
}

/// Describes the texture that stands for `buf` in the renderer: its size and renderer format.
pub fn get_imported_descriptor(buf: &Dmatex) -> (r: Result<TextureDescription, ImportError>)
    ensures
        r == descriptor_of(*buf),
{
    let f = match fourcc_from_code(buf.format) {
        Ok(f) => f,
        Err(e) => return Err(ImportError::UnrecognizedFourcc(e)),
    };
    match renderer_format(f, buf.srgb) {
        None => Err(ImportError::WgpuIncompatibleFormat),
        Some(w) => Ok(TextureDescription { width: buf.res.x, height: buf.res.y, format: w }),
    }
}

/// The Vulkan format that importing `buf` creates its image with, which the device's
/// capabilities are queried for; or the error of the format checks that come first.
pub fn image_format_for(buf: &Dmatex) -> (r: Result<i32, ImportError>)
    ensures
        r == match fourcc_of_code(buf.format) {
            None => Err(ImportError::UnrecognizedFourcc(UnrecognizedFourcc(buf.format))),
            Some(f) => match image_format_of(f, buf.srgb) {
                None => Err(ImportError::VulkanIncompatibleFormat),
                Some(v) => Ok(v),
            },
        },
{
    let f = match fourcc_from_code(buf.format) {
        Ok(f) => f,
        Err(e) => return Err(ImportError::UnrecognizedFourcc(e)),
    };
    match image_format(f, buf.srgb) {
        Some(v) => Ok(v),
        None => Err(ImportError::VulkanIncompatibleFormat),
    }
}

/// What is wrong with one plane, given the device's modifiers and the number of planes.
pub open spec fn plane_error(mods: Seq<ModifierProperties>, p: DmatexPlane, count: nat) -> Option<
    ImportError,
> {
    match find_modifier(mods, p.modifier) {
        None => Some(ImportError::ModifierInvalid),
        Some(props) => if props.plane_count as nat != count {
            Some(ImportError::IncorrectNumberOfPlanes)
        } else {
            None
        },
    }
}

/// The error of the first faulty plane of `planes`.
pub open spec fn first_plane_error(
    mods: Seq<ModifierProperties>,
    planes: Seq<DmatexPlane>,
    count: nat,
) -> Option<ImportError>
    decreases planes.len(),
{
    if planes.len() == 0 {
        None
    } else {
        match first_plane_error(mods, planes.drop_last(), count) {
            Some(e) => Some(e),
            None => plane_error(mods, planes.last(), count),
        }
    }
}

/// The first faulty plane of a prefix is the first faulty plane of the whole.
proof fn lemma_first_plane_error_prefix(
    mods: Seq<ModifierProperties>,
    planes: Seq<DmatexPlane>,
    k: int,
    count: nat,
)
    requires
        0 <= k <= planes.len(),
        first_plane_error(mods, planes.subrange(0, k), count) is Some,
    ensures
        first_plane_error(mods, planes, count) == first_plane_error(
            mods,
            planes.subrange(0, k),
            count,
        ),
    decreases planes.len(),
{
    if k < planes.len() {
        assert(planes.drop_last().subrange(0, k) =~= planes.subrange(0, k));
        lemma_first_plane_error_prefix(mods, planes.drop_last(), k, count);
    } else {
        assert(planes.subrange(0, k) =~= planes);
    }
}

/// The reason `buf` cannot be imported on a device with capabilities `caps`, checked in
/// this order: the format code, its Vulkan format, the device's support of the format, each
/// plane's modifier and the plane count, the presence of planes, the renderer format.
pub open spec fn import_error(buf: Dmatex, caps: FormatCapabilities) -> Option<ImportError> {
    match fourcc_of_code(buf.format) {
        None => Some(ImportError::UnrecognizedFourcc(UnrecognizedFourcc(buf.format))),
        Some(f) => if image_format_of(f, buf.srgb) is None {
            Some(ImportError::VulkanIncompatibleFormat)
        } else if !caps.image_supported {
            Some(ImportError::NotSupportedByDevice)
        } else if first_plane_error(caps.modifiers@, buf.planes@, buf.planes@.len()) is Some {
            first_plane_error(caps.modifiers@, buf.planes@, buf.planes@.len())
        } else if buf.planes@.len() == 0 {
            Some(ImportError::NoPlanes)
        } else if renderer_format_of(f, buf.srgb) is None {
            Some(ImportError::WgpuIncompatibleFormat)
        } else {
            None
        },
    }
}

/// How the memory behind an imported image is allocated.
#[derive(Debug, Clone, Copy, PartialEq, Eq, Structural)]
pub enum MemoryLayout {
    /// Each plane is imported as a memory allocation of its own, from its own descriptor.
    Disjoint,
    /// One allocation, imported from the first plane's descriptor, backs every plane.
    Combined,
}

/// Where one plane lies in its memory.
#[derive(Debug, Clone, Copy, PartialEq, Eq, Structural)]
pub struct PlaneLayout {
    pub offset: u32,
    pub stride: i32,
    pub modifier: u64,
}

/// Everything the graphics calls of an import need to know, decided before any of them.
#[derive(Debug)]
pub struct ImportPlan {
    pub vk_format: i32,
    pub wgpu_format: TextureFormat,
    pub width: u32,
    pub height: u32,
    pub memory: MemoryLayout,
    pub planes: Vec<PlaneLayout>,
    /// `Some(m)` when every plane uses modifier `m`: the image is created with an explicit
    /// per-plane layout. `None`: it is created from the list of the planes' modifiers.
    pub explicit_modifier: Option<u64>,
}

/// Whether some plane's modifier asks for disjoint memory.
pub open spec fn any_disjoint(mods: Seq<ModifierProperties>, planes: Seq<DmatexPlane>) -> bool {
    exists|i: int|
        0 <= i < planes.len() && #[trigger] find_modifier(mods, planes[i].modifier) is Some
            && find_modifier(mods, planes[i].modifier)->Some_0.spec_is_disjoint()
}

/// Whether every plane uses the first plane's modifier.
pub open spec fn one_modifier(planes: Seq<DmatexPlane>) -> bool {
    forall|i: int| 0 <= i < planes.len() ==> #[trigger] planes[i].modifier == planes[0].modifier
}

/// Whether `plan` is the plan for importing `buf` on a device with capabilities `caps`.
pub open spec fn is_plan_for(plan: ImportPlan, buf: Dmatex, caps: FormatCapabilities) -> bool {
    let f = fourcc_of_code(buf.format)->Some_0;
    &&& plan.vk_format == image_format_of(f, buf.srgb)->Some_0
    &&& plan.wgpu_format == renderer_format_of(f, buf.srgb)->Some_0
    &&& plan.width == buf.res.x
    &&& plan.height == buf.res.y
    &&& plan.memory == if any_disjoint(caps.modifiers@, buf.planes@) {
        MemoryLayout::Disjoint
    } else {
        MemoryLayout::Combined
    }
    &&& plan.planes@.len() == buf.planes@.len()
    &&& forall|i: int|
        0 <= i < buf.planes@.len() ==> #[trigger] plan.planes@[i] == (PlaneLayout {
            offset: buf.planes@[i].offset,
            stride: buf.planes@[i].stride,
            modifier: buf.planes@[i].modifier,
        })
    &&& plan.explicit_modifier == if one_modifier(buf.planes@) {
        Some(buf.planes@[0].modifier)
    } else {
        None
    }
}

impl ImportPlan {
    /// Number of memory allocations the import makes.
    pub open spec fn allocation_count(self) -> nat {
        match self.memory {
            MemoryLayout::Disjoint => self.planes@.len(),
            MemoryLayout::Combined => 1,
        }
    }

    /// The plane whose descriptor allocation `k` is imported from.
    pub open spec fn spec_plane_of_allocation(self, k: nat) -> nat {
        match self.memory {
            MemoryLayout::Disjoint => k,
            MemoryLayout::Combined => 0,
        }
    }

    pub fn allocations(&self) -> (r: usize)
        ensures
            r == self.allocation_count(),
    {
        match self.memory {
            MemoryLayout::Disjoint => self.planes.len(),
            MemoryLayout::Combined => 1,
        }
    }

    pub fn plane_of_allocation(&self, k: usize) -> (r: usize)
        ensures
            r == self.spec_plane_of_allocation(k as nat),
    {
        match self.memory {
            MemoryLayout::Disjoint => k,
            MemoryLayout::Combined => 0,
        }
    }
}

/// Checks that `buf` can be imported on a device with capabilities `caps` and decides how.
/// Fails with the first error of [`import_error`]; makes no graphics call.
pub fn plan_import(buf: &Dmatex, caps: &FormatCapabilities) -> (r: Result<ImportPlan, ImportError>)
    ensures
        match r {
            Ok(plan) => import_error(*buf, *caps) is None && is_plan_for(plan, *buf, *caps),
            Err(e) => import_error(*buf, *caps) == Some(e),
        },
{
    let f = match fourcc_from_code(buf.format) {
        Ok(f) => f,
        Err(e) => return Err(ImportError::UnrecognizedFourcc(e)),
    };
    let vk_format = match image_format(f, buf.srgb) {
        Some(v) => v,
        None => return Err(ImportError::VulkanIncompatibleFormat),
    };
    if !caps.image_supported {
        return Err(ImportError::NotSupportedByDevice);
    }
    let n = buf.planes.len();
    let ghost mods = caps.modifiers@;
    let ghost planes = buf.planes@;
    let mut layouts: Vec<PlaneLayout> = Vec::new();
    let mut disjoint = false;
    let mut same = true;
    let mut i: usize = 0;
    while i < n
        invariant
            fourcc_of_code(buf.format) == Some(f),
            image_format_of(f, buf.srgb) == Some(vk_format),
            caps.image_supported,
            n == planes.len(),
            mods == caps.modifiers@,
            planes == buf.planes@,
            i <= n,
            first_plane_error(mods, planes.subrange(0, i as int), n as nat) is None,
            layouts@.len() == i,
            forall|j: int|
                0 <= j < i ==> #[trigger] layouts@[j] == (PlaneLayout {
                    offset: planes[j].offset,
                    stride: planes[j].stride,
                    modifier: planes[j].modifier,
                }),
            disjoint == exists|j: int|
                0 <= j < i && #[trigger] find_modifier(mods, planes[j].modifier) is Some
                    && find_modifier(mods, planes[j].modifier)->Some_0.spec_is_disjoint(),
            same == forall|j: int| 0 <= j < i ==> #[trigger] planes[j].modifier == planes[0].modifier,
        decreases n - i,
    {
        let plane = &buf.planes[i];
        proof {
            assert(planes.subrange(0, i + 1).drop_last() =~= planes.subrange(0, i as int));
            assert(planes.subrange(0, i + 1).last() == planes[i as int]);
        }
        let props = match caps.modifier_properties(plane.modifier) {
            Some(p) => p,
            None => {
                proof {
                    lemma_first_plane_error_prefix(mods, planes, i + 1, n as nat);
                }
                return Err(ImportError::ModifierInvalid);
            },
        };
        if props.plane_count as usize != n {
            proof {
                lemma_first_plane_error_prefix(mods, planes, i + 1, n as nat);
            }
            return Err(ImportError::IncorrectNumberOfPlanes);
        }
        if props.is_disjoint() {
            disjoint = true;
        }
        if plane.modifier != buf.planes[0].modifier {
            same = false;
        }
        layouts.push(
            PlaneLayout { offset: plane.offset, stride: plane.stride, modifier: plane.modifier },
        );
        i += 1;
    }
    assert(planes.subrange(0, n as int) =~= planes);
    if n == 0 {
        return Err(ImportError::NoPlanes);
    }
    let wgpu_format = match renderer_format(f, buf.srgb) {
        Some(w) => w,
        None => return Err(ImportError::WgpuIncompatibleFormat),
    };
    let explicit_modifier = if same {
        Some(buf.planes[0].modifier)
    } else {
        None
    };
    Ok(
        ImportPlan {
            vk_format,
            wgpu_format,
            width: buf.res.x,
            height: buf.res.y,
            memory: if disjoint {
                MemoryLayout::Disjoint
            } else {
                MemoryLayout::Combined
            },
            planes: layouts,
            explicit_modifier,
        },
    )
}

/// When every plane uses modifier `m`, the planes fail or pass together, as the first would.
proof fn lemma_uniform_planes(
    mods: Seq<ModifierProperties>,
    planes: Seq<DmatexPlane>,
    count: nat,
    m: u64,
)
    requires
        planes.len() > 0,
        forall|i: int| 0 <= i < planes.len() ==> #[trigger] planes[i].modifier == m,
    ensures
        first_plane_error(mods, planes, count) == plane_error(mods, planes[0], count),
    decreases planes.len(),
{
    if planes.len() > 1 {
        let p = planes.drop_last();
        assert(forall|i: int| 0 <= i < p.len() ==> #[trigger] p[i] == planes[i]);
        lemma_uniform_planes(mods, p, count, m);
        assert(p[0] == planes[0]);
        assert(planes.last().modifier == planes[0].modifier);
        assert(plane_error(mods, planes.last(), count) == plane_error(mods, planes[0], count));
    } else {
        assert(planes.drop_last().len() == 0);
        assert(first_plane_error(mods, planes.drop_last(), count) is None);
        assert(planes.last() == planes[0]);
    }
}

/// When the device knows every plane's modifier, the planes fail exactly when one of their
/// modifiers defines another number of planes, and then with `IncorrectNumberOfPlanes`.
proof fn lemma_known_modifiers(mods: Seq<ModifierProperties>, planes: Seq<DmatexPlane>, count: nat)
    requires
        forall|i: int|
            0 <= i < planes.len() ==> #[trigger] find_modifier(mods, planes[i].modifier) is Some,
    ensures
        first_plane_error(mods, planes, count) == if exists|i: int|
            0 <= i < planes.len() && #[trigger] find_modifier(mods, planes[i].modifier)->Some_0.plane_count
                as nat != count {
            Some(ImportError::IncorrectNumberOfPlanes)
        } else {
            None
        },
    decreases planes.len(),
{
    if planes.len() > 0 {
        let p = planes.drop_last();
        assert(forall|i: int| 0 <= i < p.len() ==> #[trigger] p[i] == planes[i]);
        lemma_known_modifiers(mods, p, count);
        let last = planes.len() - 1;
        assert(planes.last() == planes[last]);
        if exists|i: int|
            0 <= i < p.len() && #[trigger] find_modifier(mods, p[i].modifier)->Some_0.plane_count
                as nat != count {
            let i = choose|i: int|
                0 <= i < p.len() && #[trigger] find_modifier(mods, p[i].modifier)->Some_0.plane_count
                    as nat != count;
            assert(find_modifier(mods, planes[i].modifier)->Some_0.plane_count as nat != count);
        } else if find_modifier(mods, planes[last].modifier)->Some_0.plane_count as nat != count {
        } else {
            assert forall|i: int| 0 <= i < planes.len() implies #[trigger] find_modifier(
                mods,
                planes[i].modifier,
            )->Some_0.plane_count as nat == count by {
                if i < last {
                    assert(p[i] == planes[i]);
                }
            }
        }
    }
}

/// A descriptor whose planes all use a modifier that the device reports for the format, with
/// as many planes as that modifier defines, passes every check when its format is known to
/// Vulkan and to the renderer; one whose modifier the device does not report fails with
/// `ModifierInvalid`. Neither outcome needs a graphics call: the checks come before any.
pub proof fn lemma_supported_modifier_imports(buf: Dmatex, caps: FormatCapabilities, m: u64)
    requires
        fourcc_of_code(buf.format) is Some,
        image_format_of(fourcc_of_code(buf.format)->Some_0, buf.srgb) is Some,
        renderer_format_of(fourcc_of_code(buf.format)->Some_0, buf.srgb) is Some,
        caps.image_supported,
        buf.planes@.len() > 0,
        forall|i: int| 0 <= i < buf.planes@.len() ==> #[trigger] buf.planes@[i].modifier == m,
    ensures
        find_modifier(caps.modifiers@, m) is Some && find_modifier(caps.modifiers@, m)->Some_0.plane_count
            == buf.planes@.len() ==> import_error(buf, caps) is None,
        find_modifier(caps.modifiers@, m) is None ==> import_error(buf, caps) == Some(
            ImportError::ModifierInvalid,
        ),
{
    lemma_uniform_planes(caps.modifiers@, buf.planes@, buf.planes@.len(), m);
}

/// When every plane whose modifier the device knows has the right plane count, the planes fail
/// exactly when some modifier is unknown, and then with `ModifierInvalid`.
proof fn lemma_counts_match(mods: Seq<ModifierProperties>, planes: Seq<DmatexPlane>, count: nat)
    requires
        forall|i: int|
            0 <= i < planes.len() && #[trigger] find_modifier(mods, planes[i].modifier) is Some
                ==> find_modifier(mods, planes[i].modifier)->Some_0.plane_count as nat == count,
    ensures
        first_plane_error(mods, planes, count) == if exists|i: int|
            0 <= i < planes.len() && #[trigger] find_modifier(mods, planes[i].modifier) is None {
            Some(ImportError::ModifierInvalid)
        } else {
            None
        },
    decreases planes.len(),
{
    if planes.len() > 0 {
        let p = planes.drop_last();
        assert(forall|i: int| 0 <= i < p.len() ==> #[trigger] p[i] == planes[i]);
        lemma_counts_match(mods, p, count);
        let last = planes.len() - 1;
        assert(planes.last() == planes[last]);
        if exists|i: int| 0 <= i < p.len() && #[trigger] find_modifier(mods, p[i].modifier) is None {
            let i = choose|i: int|
                0 <= i < p.len() && #[trigger] find_modifier(mods, p[i].modifier) is None;
            assert(find_modifier(mods, planes[i].modifier) is None);
        } else if find_modifier(mods, planes[last].modifier) is None {
        } else {
            assert forall|i: int| 0 <= i < planes.len() implies #[trigger] find_modifier(
                mods,
                planes[i].modifier,
            ) is Some by {
                if i < last {
                    assert(p[i] == planes[i]);
                }
            }
        }
    }
}

/// A correctly shaped descriptor (every plane whose modifier the device reports has as many
/// planes as that modifier defines) with some plane whose modifier the device does not report
/// fails with `ModifierInvalid`, once its format has passed; the plane modifiers may differ.
pub proof fn lemma_unreported_modifier_invalid(buf: Dmatex, caps: FormatCapabilities, k: int)
    requires
        fourcc_of_code(buf.format) is Some,
        image_format_of(fourcc_of_code(buf.format)->Some_0, buf.srgb) is Some,
        caps.image_supported,
        forall|i: int|
            0 <= i < buf.planes@.len() && #[trigger] find_modifier(
                caps.modifiers@,
                buf.planes@[i].modifier,
            ) is Some ==> find_modifier(caps.modifiers@, buf.planes@[i].modifier)->Some_0.plane_count
                == buf.planes@.len(),
        0 <= k < buf.planes@.len(),
        find_modifier(caps.modifiers@, buf.planes@[k].modifier) is None,
    ensures
        import_error(buf, caps) == Some(ImportError::ModifierInvalid),
{
    assert forall|i: int|
        0 <= i < buf.planes@.len() && #[trigger] find_modifier(
            caps.modifiers@,
            buf.planes@[i].modifier,
        ) is Some implies find_modifier(caps.modifiers@, buf.planes@[i].modifier)->Some_0.plane_count
        as nat == buf.planes@.len() by {}
    lemma_counts_match(caps.modifiers@, buf.planes@, buf.planes@.len());
}

/// A descriptor whose plane count differs from what one of its (reported) modifiers defines
/// fails with `IncorrectNumberOfPlanes`, once its format has passed.
pub proof fn lemma_plane_count_mismatch(buf: Dmatex, caps: FormatCapabilities, k: int)
    requires
        fourcc_of_code(buf.format) is Some,
        image_format_of(fourcc_of_code(buf.format)->Some_0, buf.srgb) is Some,
        caps.image_supported,
        forall|i: int|
            0 <= i < buf.planes@.len() ==> #[trigger] find_modifier(
                caps.modifiers@,
                buf.planes@[i].modifier,
            ) is Some,
        0 <= k < buf.planes@.len(),
        find_modifier(caps.modifiers@, buf.planes@[k].modifier)->Some_0.plane_count
            != buf.planes@.len(),
    ensures
        import_error(buf, caps) == Some(ImportError::IncorrectNumberOfPlanes),
{
    lemma_known_modifiers(caps.modifiers@, buf.planes@, buf.planes@.len());
    assert(find_modifier(caps.modifiers@, buf.planes@[k].modifier)->Some_0.plane_count as nat
        != buf.planes@.len());
}

/// `VK_MEMORY_PROPERTY_LAZILY_ALLOCATED_BIT`.
pub const MEMORY_PROPERTY_LAZILY_ALLOCATED: u32 = 0x10;

/// `VK_MEMORY_PROPERTY_PROTECTED_BIT`.
pub const MEMORY_PROPERTY_PROTECTED: u32 = 0x20;

/// `VK_MEMORY_PROPERTY_RDMA_CAPABLE_BIT_NV`.
pub const MEMORY_PROPERTY_RDMA_CAPABLE_NV: u32 = 0x100;

/// Memory properties that rule a memory type out for a foreign allocation.
pub const MEMORY_PROPERTY_UNUSABLE: u32 = MEMORY_PROPERTY_LAZILY_ALLOCATED
    | MEMORY_PROPERTY_PROTECTED | MEMORY_PROPERTY_RDMA_CAPABLE_NV;

/// Whether memory type `i`, whose property flags are `flags[i]`, may receive imported memory
/// whose requirements allow the types in `type_bits`.
pub open spec fn memory_type_eligible(type_bits: u32, flags: Seq<u32>, i: int) -> bool {
    &&& 0 <= i < flags.len()
    &&& i < 32
    &&& (type_bits >> (i as u32)) & 1 == 1
    &&& flags[i] & MEMORY_PROPERTY_UNUSABLE == 0
}

/// Picks the first memory type that the memory requirements allow (`type_bits`) and whose
/// properties (`property_flags`, one entry per memory type of the device) do not rule it out.
pub fn select_memory_type(type_bits: u32, property_flags: &Vec<u32>) -> (r: Result<u32, ImportError>)
    ensures
        match r {
            Ok(i) => memory_type_eligible(type_bits, property_flags@, i as int) && forall|j: int|
                0 <= j < i ==> !memory_type_eligible(type_bits, property_flags@, j),
            Err(e) => e == ImportError::NoValidMemoryTypes && forall|j: int|
                !memory_type_eligible(type_bits, property_flags@, j),
        },
{
    let mut i: usize = 0;
    while i < property_flags.len() && i < 32
        invariant
            i <= property_flags@.len(),
            i <= 32,
            forall|j: int| 0 <= j < i ==> !memory_type_eligible(type_bits, property_flags@, j),
        decreases property_flags@.len() - i,
    {
        if (type_bits >> (i as u32)) & 1 == 1 && property_flags[i] & MEMORY_PROPERTY_UNUSABLE == 0 {
            return Ok(i as u32);
        }
        i += 1;
    }
    Err(ImportError::NoValidMemoryTypes)
}

} // verus!
