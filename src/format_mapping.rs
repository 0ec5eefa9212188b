//! Mapping between DRM FourCC codes, Vulkan formats and the renderer's texture formats.
use crate::vk_format;
use drm_fourcc::{DrmFourcc, UnrecognizedFourcc};
use vstd::prelude::*;
use wgpu::{AstcBlock, AstcChannel, TextureFormat};

verus! {

#[verifier::external_type_specification]
pub struct ExDrmFourcc(DrmFourcc);

#[verifier::external_type_specification]
pub struct ExUnrecognizedFourcc(UnrecognizedFourcc);

#[verifier::external_type_specification]
pub struct ExAstcBlock(AstcBlock);

#[verifier::external_type_specification]
pub struct ExAstcChannel(AstcChannel);

#[verifier::external_type_specification]
pub struct ExTextureFormat(TextureFormat);

/// The DRM FourCC whose code is `code`, where there is one.
pub open spec fn fourcc_of_code(code: u32) -> Option<DrmFourcc> {
    match code {
        892420673 => Some(DrmFourcc::Abgr1555),
        1211384385 => Some(DrmFourcc::Abgr16161616f),
        808665665 => Some(DrmFourcc::Abgr2101010),
        842089025 => Some(DrmFourcc::Abgr4444),
        875708993 => Some(DrmFourcc::Abgr8888),
        892424769 => Some(DrmFourcc::Argb1555),
        1211388481 => Some(DrmFourcc::Argb16161616f),
        808669761 => Some(DrmFourcc::Argb2101010),
        842093121 => Some(DrmFourcc::Argb4444),
        875713089 => Some(DrmFourcc::Argb8888),
        808534593 => Some(DrmFourcc::Axbxgxrx106106106106),
        1448433985 => Some(DrmFourcc::Ayuv),
        944916290 => Some(DrmFourcc::Bgr233),
        909199170 => Some(DrmFourcc::Bgr565),
        943797570 => Some(DrmFourcc::Bgr565_a8),
        875710274 => Some(DrmFourcc::Bgr888),
        943798338 => Some(DrmFourcc::Bgr888_a8),
        808665410 => Some(DrmFourcc::Bgra1010102),
        842088770 => Some(DrmFourcc::Bgra4444),
        892420418 => Some(DrmFourcc::Bgra5551),
        875708738 => Some(DrmFourcc::Bgra8888),
        808671298 => Some(DrmFourcc::Bgrx1010102),
        842094658 => Some(DrmFourcc::Bgrx4444),
        892426306 => Some(DrmFourcc::Bgrx5551),
        875714626 => Some(DrmFourcc::Bgrx8888),
        943806530 => Some(DrmFourcc::Bgrx8888_a8),
        2147483648 => Some(DrmFourcc::Big_endian),
        538982467 => Some(DrmFourcc::C8),
        842224199 => Some(DrmFourcc::Gr1616),
        943215175 => Some(DrmFourcc::Gr88),
        842094158 => Some(DrmFourcc::Nv12),
        892425806 => Some(DrmFourcc::Nv15),
        909203022 => Some(DrmFourcc::Nv16),
        825382478 => Some(DrmFourcc::Nv21),
        875714126 => Some(DrmFourcc::Nv24),
        842290766 => Some(DrmFourcc::Nv42),
        825644622 => Some(DrmFourcc::Nv61),
        808530000 => Some(DrmFourcc::P010),
        842084432 => Some(DrmFourcc::P012),
        909193296 => Some(DrmFourcc::P016),
        808530512 => Some(DrmFourcc::P210),
        825242705 => Some(DrmFourcc::Q401),
        808531025 => Some(DrmFourcc::Q410),
        540422482 => Some(DrmFourcc::R16),
        538982482 => Some(DrmFourcc::R8),
        842221394 => Some(DrmFourcc::Rg1616),
        943212370 => Some(DrmFourcc::Rg88),
        943867730 => Some(DrmFourcc::Rgb332),
        909199186 => Some(DrmFourcc::Rgb565),
        943797586 => Some(DrmFourcc::Rgb565_a8),
        875710290 => Some(DrmFourcc::Rgb888),
        943798354 => Some(DrmFourcc::Rgb888_a8),
        808665426 => Some(DrmFourcc::Rgba1010102),
        842088786 => Some(DrmFourcc::Rgba4444),
        892420434 => Some(DrmFourcc::Rgba5551),
        875708754 => Some(DrmFourcc::Rgba8888),
        808671314 => Some(DrmFourcc::Rgbx1010102),
        842094674 => Some(DrmFourcc::Rgbx4444),
        892426322 => Some(DrmFourcc::Rgbx5551),
        875714642 => Some(DrmFourcc::Rgbx8888),
        943806546 => Some(DrmFourcc::Rgbx8888_a8),
        1498831189 => Some(DrmFourcc::Uyvy),
        808670550 => Some(DrmFourcc::Vuy101010),
        875713878 => Some(DrmFourcc::Vuy888),
        1498765654 => Some(DrmFourcc::Vyuy),
        810299480 => Some(DrmFourcc::X0l0),
        843853912 => Some(DrmFourcc::X0l2),
        892420696 => Some(DrmFourcc::Xbgr1555),
        1211384408 => Some(DrmFourcc::Xbgr16161616f),
        808665688 => Some(DrmFourcc::Xbgr2101010),
        842089048 => Some(DrmFourcc::Xbgr4444),
        875709016 => Some(DrmFourcc::Xbgr8888),
        943800920 => Some(DrmFourcc::Xbgr8888_a8),
        892424792 => Some(DrmFourcc::Xrgb1555),
        1211388504 => Some(DrmFourcc::Xrgb16161616f),
        808669784 => Some(DrmFourcc::Xrgb2101010),
        842093144 => Some(DrmFourcc::Xrgb4444),
        875713112 => Some(DrmFourcc::Xrgb8888),
        943805016 => Some(DrmFourcc::Xrgb8888_a8),
        909334104 => Some(DrmFourcc::Xvyu12_16161616),
        942954072 => Some(DrmFourcc::Xvyu16161616),
        808670808 => Some(DrmFourcc::Xvyu2101010),
        1448434008 => Some(DrmFourcc::Xyuv8888),
        810299481 => Some(DrmFourcc::Y0l0),
        843853913 => Some(DrmFourcc::Y0l2),
        808530521 => Some(DrmFourcc::Y210),
        842084953 => Some(DrmFourcc::Y212),
        909193817 => Some(DrmFourcc::Y216),
        808531033 => Some(DrmFourcc::Y410),
        842085465 => Some(DrmFourcc::Y412),
        909194329 => Some(DrmFourcc::Y416),
        961959257 => Some(DrmFourcc::Yuv410),
        825316697 => Some(DrmFourcc::Yuv411),
        842093913 => Some(DrmFourcc::Yuv420),
        808539481 => Some(DrmFourcc::Yuv420_10bit),
        942691673 => Some(DrmFourcc::Yuv420_8bit),
        909202777 => Some(DrmFourcc::Yuv422),
        875713881 => Some(DrmFourcc::Yuv444),
        1448695129 => Some(DrmFourcc::Yuyv),
        961893977 => Some(DrmFourcc::Yvu410),
        825316953 => Some(DrmFourcc::Yvu411),
        842094169 => Some(DrmFourcc::Yvu420),
        909203033 => Some(DrmFourcc::Yvu422),
        875714137 => Some(DrmFourcc::Yvu444),
        1431918169 => Some(DrmFourcc::Yvyu),
        _ => None,
    }
}

/// Relies on `DrmFourcc::try_from(u32)`: it returns the variant whose code is `code`, and
/// otherwise an `UnrecognizedFourcc` that carries `code`.
#[verifier::external_body]
pub(crate) fn fourcc_from_code(code: u32) -> (r: Result<DrmFourcc, UnrecognizedFourcc>)
    ensures
        r == match fourcc_of_code(code) {
            Some(f) => Ok(f),
            None => Err(UnrecognizedFourcc(code)),
        },
{
    DrmFourcc::try_from(code)
}

/// The numeric code of a DRM FourCC: the four ASCII bytes of its name, least significant first.
pub open spec fn fourcc_code(f: DrmFourcc) -> u32 {
    match f {
        DrmFourcc::Abgr1555 => 892420673,
        DrmFourcc::Abgr16161616f => 1211384385,
        DrmFourcc::Abgr2101010 => 808665665,
        DrmFourcc::Abgr4444 => 842089025,
        DrmFourcc::Abgr8888 => 875708993,
        DrmFourcc::Argb1555 => 892424769,
        DrmFourcc::Argb16161616f => 1211388481,
        DrmFourcc::Argb2101010 => 808669761,
        DrmFourcc::Argb4444 => 842093121,
        DrmFourcc::Argb8888 => 875713089,
        DrmFourcc::Axbxgxrx106106106106 => 808534593,
        DrmFourcc::Ayuv => 1448433985,
        DrmFourcc::Bgr233 => 944916290,
        DrmFourcc::Bgr565 => 909199170,
        DrmFourcc::Bgr565_a8 => 943797570,
        DrmFourcc::Bgr888 => 875710274,
        DrmFourcc::Bgr888_a8 => 943798338,
        DrmFourcc::Bgra1010102 => 808665410,
        DrmFourcc::Bgra4444 => 842088770,
        DrmFourcc::Bgra5551 => 892420418,
        DrmFourcc::Bgra8888 => 875708738,
        DrmFourcc::Bgrx1010102 => 808671298,
        DrmFourcc::Bgrx4444 => 842094658,
        DrmFourcc::Bgrx5551 => 892426306,
        DrmFourcc::Bgrx8888 => 875714626,
        DrmFourcc::Bgrx8888_a8 => 943806530,
        DrmFourcc::Big_endian => 2147483648,
        DrmFourcc::C8 => 538982467,
        DrmFourcc::Gr1616 => 842224199,
        DrmFourcc::Gr88 => 943215175,
        DrmFourcc::Nv12 => 842094158,
        DrmFourcc::Nv15 => 892425806,
        DrmFourcc::Nv16 => 909203022,
        DrmFourcc::Nv21 => 825382478,
        DrmFourcc::Nv24 => 875714126,
        DrmFourcc::Nv42 => 842290766,
        DrmFourcc::Nv61 => 825644622,
        DrmFourcc::P010 => 808530000,
        DrmFourcc::P012 => 842084432,
        DrmFourcc::P016 => 909193296,
        DrmFourcc::P210 => 808530512,
        DrmFourcc::Q401 => 825242705,
        DrmFourcc::Q410 => 808531025,
        DrmFourcc::R16 => 540422482,
        DrmFourcc::R8 => 538982482,
        DrmFourcc::Rg1616 => 842221394,
        DrmFourcc::Rg88 => 943212370,
        DrmFourcc::Rgb332 => 943867730,
        DrmFourcc::Rgb565 => 909199186,
        DrmFourcc::Rgb565_a8 => 943797586,
        DrmFourcc::Rgb888 => 875710290,
        DrmFourcc::Rgb888_a8 => 943798354,
        DrmFourcc::Rgba1010102 => 808665426,
        DrmFourcc::Rgba4444 => 842088786,
        DrmFourcc::Rgba5551 => 892420434,
        DrmFourcc::Rgba8888 => 875708754,
        DrmFourcc::Rgbx1010102 => 808671314,
        DrmFourcc::Rgbx4444 => 842094674,
        DrmFourcc::Rgbx5551 => 892426322,
        DrmFourcc::Rgbx8888 => 875714642,
        DrmFourcc::Rgbx8888_a8 => 943806546,
        DrmFourcc::Uyvy => 1498831189,
        DrmFourcc::Vuy101010 => 808670550,
        DrmFourcc::Vuy888 => 875713878,
        DrmFourcc::Vyuy => 1498765654,
        DrmFourcc::X0l0 => 810299480,
        DrmFourcc::X0l2 => 843853912,
        DrmFourcc::Xbgr1555 => 892420696,
        DrmFourcc::Xbgr16161616f => 1211384408,
        DrmFourcc::Xbgr2101010 => 808665688,
        DrmFourcc::Xbgr4444 => 842089048,
        DrmFourcc::Xbgr8888 => 875709016,
        DrmFourcc::Xbgr8888_a8 => 943800920,
        DrmFourcc::Xrgb1555 => 892424792,
        DrmFourcc::Xrgb16161616f => 1211388504,
        DrmFourcc::Xrgb2101010 => 808669784,
        DrmFourcc::Xrgb4444 => 842093144,
        DrmFourcc::Xrgb8888 => 875713112,
        DrmFourcc::Xrgb8888_a8 => 943805016,
        DrmFourcc::Xvyu12_16161616 => 909334104,
        DrmFourcc::Xvyu16161616 => 942954072,
        DrmFourcc::Xvyu2101010 => 808670808,
        DrmFourcc::Xyuv8888 => 1448434008,
        DrmFourcc::Y0l0 => 810299481,
        DrmFourcc::Y0l2 => 843853913,
        DrmFourcc::Y210 => 808530521,
        DrmFourcc::Y212 => 842084953,
        DrmFourcc::Y216 => 909193817,
        DrmFourcc::Y410 => 808531033,
        DrmFourcc::Y412 => 842085465,
        DrmFourcc::Y416 => 909194329,
        DrmFourcc::Yuv410 => 961959257,
        DrmFourcc::Yuv411 => 825316697,
        DrmFourcc::Yuv420 => 842093913,
        DrmFourcc::Yuv420_10bit => 808539481,
        DrmFourcc::Yuv420_8bit => 942691673,
        DrmFourcc::Yuv422 => 909202777,
        DrmFourcc::Yuv444 => 875713881,
        DrmFourcc::Yuyv => 1448695129,
        DrmFourcc::Yvu410 => 961893977,
        DrmFourcc::Yvu411 => 825316953,
        DrmFourcc::Yvu420 => 842094169,
        DrmFourcc::Yvu422 => 909203033,
        DrmFourcc::Yvu444 => 875714137,
        DrmFourcc::Yvyu => 1431918169,
    }
}

/// The numeric code of `f`, as carried in a buffer descriptor.
pub fn fourcc_to_code(f: DrmFourcc) -> (r: u32)
    ensures
        r == fourcc_code(f),
{
    match f {
        DrmFourcc::Abgr1555 => 892420673,
        DrmFourcc::Abgr16161616f => 1211384385,
        DrmFourcc::Abgr2101010 => 808665665,
        DrmFourcc::Abgr4444 => 842089025,
        DrmFourcc::Abgr8888 => 875708993,
        DrmFourcc::Argb1555 => 892424769,
        DrmFourcc::Argb16161616f => 1211388481,
        DrmFourcc::Argb2101010 => 808669761,
        DrmFourcc::Argb4444 => 842093121,
        DrmFourcc::Argb8888 => 875713089,
        DrmFourcc::Axbxgxrx106106106106 => 808534593,
        DrmFourcc::Ayuv => 1448433985,
        DrmFourcc::Bgr233 => 944916290,
        DrmFourcc::Bgr565 => 909199170,
        DrmFourcc::Bgr565_a8 => 943797570,
        DrmFourcc::Bgr888 => 875710274,
        DrmFourcc::Bgr888_a8 => 943798338,
        DrmFourcc::Bgra1010102 => 808665410,
        DrmFourcc::Bgra4444 => 842088770,
        DrmFourcc::Bgra5551 => 892420418,
        DrmFourcc::Bgra8888 => 875708738,
        DrmFourcc::Bgrx1010102 => 808671298,
        DrmFourcc::Bgrx4444 => 842094658,
        DrmFourcc::Bgrx5551 => 892426306,
        DrmFourcc::Bgrx8888 => 875714626,
        DrmFourcc::Bgrx8888_a8 => 943806530,
        DrmFourcc::Big_endian => 2147483648,
        DrmFourcc::C8 => 538982467,
        DrmFourcc::Gr1616 => 842224199,
        DrmFourcc::Gr88 => 943215175,
        DrmFourcc::Nv12 => 842094158,
        DrmFourcc::Nv15 => 892425806,
        DrmFourcc::Nv16 => 909203022,
        DrmFourcc::Nv21 => 825382478,
        DrmFourcc::Nv24 => 875714126,
        DrmFourcc::Nv42 => 842290766,
        DrmFourcc::Nv61 => 825644622,
        DrmFourcc::P010 => 808530000,
        DrmFourcc::P012 => 842084432,
        DrmFourcc::P016 => 909193296,
        DrmFourcc::P210 => 808530512,
        DrmFourcc::Q401 => 825242705,
        DrmFourcc::Q410 => 808531025,
        DrmFourcc::R16 => 540422482,
        DrmFourcc::R8 => 538982482,
        DrmFourcc::Rg1616 => 842221394,
        DrmFourcc::Rg88 => 943212370,
        DrmFourcc::Rgb332 => 943867730,
        DrmFourcc::Rgb565 => 909199186,
        DrmFourcc::Rgb565_a8 => 943797586,
        DrmFourcc::Rgb888 => 875710290,
        DrmFourcc::Rgb888_a8 => 943798354,
        DrmFourcc::Rgba1010102 => 808665426,
        DrmFourcc::Rgba4444 => 842088786,
        DrmFourcc::Rgba5551 => 892420434,
        DrmFourcc::Rgba8888 => 875708754,
        DrmFourcc::Rgbx1010102 => 808671314,
        DrmFourcc::Rgbx4444 => 842094674,
        DrmFourcc::Rgbx5551 => 892426322,
        DrmFourcc::Rgbx8888 => 875714642,
        DrmFourcc::Rgbx8888_a8 => 943806546,
        DrmFourcc::Uyvy => 1498831189,
        DrmFourcc::Vuy101010 => 808670550,
        DrmFourcc::Vuy888 => 875713878,
        DrmFourcc::Vyuy => 1498765654,
        DrmFourcc::X0l0 => 810299480,
        DrmFourcc::X0l2 => 843853912,
        DrmFourcc::Xbgr1555 => 892420696,
        DrmFourcc::Xbgr16161616f => 1211384408,
        DrmFourcc::Xbgr2101010 => 808665688,
        DrmFourcc::Xbgr4444 => 842089048,
        DrmFourcc::Xbgr8888 => 875709016,
        DrmFourcc::Xbgr8888_a8 => 943800920,
        DrmFourcc::Xrgb1555 => 892424792,
        DrmFourcc::Xrgb16161616f => 1211388504,
        DrmFourcc::Xrgb2101010 => 808669784,
        DrmFourcc::Xrgb4444 => 842093144,
        DrmFourcc::Xrgb8888 => 875713112,
        DrmFourcc::Xrgb8888_a8 => 943805016,
        DrmFourcc::Xvyu12_16161616 => 909334104,
        DrmFourcc::Xvyu16161616 => 942954072,
        DrmFourcc::Xvyu2101010 => 808670808,
        DrmFourcc::Xyuv8888 => 1448434008,
        DrmFourcc::Y0l0 => 810299481,
        DrmFourcc::Y0l2 => 843853913,
        DrmFourcc::Y210 => 808530521,
        DrmFourcc::Y212 => 842084953,
        DrmFourcc::Y216 => 909193817,
        DrmFourcc::Y410 => 808531033,
        DrmFourcc::Y412 => 842085465,
        DrmFourcc::Y416 => 909194329,
        DrmFourcc::Yuv410 => 961959257,
        DrmFourcc::Yuv411 => 825316697,
        DrmFourcc::Yuv420 => 842093913,
        DrmFourcc::Yuv420_10bit => 808539481,
        DrmFourcc::Yuv420_8bit => 942691673,
        DrmFourcc::Yuv422 => 909202777,
        DrmFourcc::Yuv444 => 875713881,
        DrmFourcc::Yuyv => 1448695129,
        DrmFourcc::Yvu410 => 961893977,
        DrmFourcc::Yvu411 => 825316953,
        DrmFourcc::Yvu420 => 842094169,
        DrmFourcc::Yvu422 => 909203033,
        DrmFourcc::Yvu444 => 875714137,
        DrmFourcc::Yvyu => 1431918169,
    }
}

/// The Vulkan format that holds the pixels of a DRM FourCC, where there is one.
pub open spec fn native_of_drm(drm_format: DrmFourcc) -> Option<i32> {
    match drm_format {
        DrmFourcc::Abgr1555 | DrmFourcc::Xbgr1555 => Some(vk_format::R5G5B5A1_UNORM_PACK16),
        DrmFourcc::Abgr2101010 | DrmFourcc::Xbgr2101010 => Some(vk_format::A2B10G10R10_UNORM_PACK32),
        DrmFourcc::Abgr4444 | DrmFourcc::Xbgr4444 => Some(vk_format::A4B4G4R4_UNORM_PACK16),
        DrmFourcc::Abgr8888 | DrmFourcc::Xbgr8888 => Some(vk_format::R8G8B8A8_UNORM),
        DrmFourcc::Argb1555 | DrmFourcc::Xrgb1555 => Some(vk_format::A1R5G5B5_UNORM_PACK16),
        DrmFourcc::Argb2101010 | DrmFourcc::Xrgb2101010 => Some(vk_format::A2R10G10B10_UNORM_PACK32),
        DrmFourcc::Argb4444 | DrmFourcc::Xrgb4444 => Some(vk_format::B4G4R4A4_UNORM_PACK16),
        DrmFourcc::Argb8888 | DrmFourcc::Xrgb8888 => Some(vk_format::B8G8R8A8_UNORM),
        DrmFourcc::Bgr565 => Some(vk_format::B5G6R5_UNORM_PACK16),
        DrmFourcc::Bgr888 => Some(vk_format::B8G8R8_UNORM),
        DrmFourcc::Bgr888_a8 => Some(vk_format::B8G8R8A8_UNORM),
        DrmFourcc::Bgra4444 | DrmFourcc::Bgrx4444 => Some(vk_format::B4G4R4A4_UNORM_PACK16),
        DrmFourcc::Bgra5551 | DrmFourcc::Bgrx5551 => Some(vk_format::B5G5R5A1_UNORM_PACK16),
        DrmFourcc::Bgra8888 | DrmFourcc::Bgrx8888 => Some(vk_format::B8G8R8A8_UNORM),
        DrmFourcc::R16 => Some(vk_format::R16_UNORM),
        DrmFourcc::R8 => Some(vk_format::R8_UNORM),
        DrmFourcc::Rg1616 => Some(vk_format::R16G16_UNORM),
        DrmFourcc::Rg88 => Some(vk_format::R8G8_UNORM),
        DrmFourcc::Rgb565 => Some(vk_format::R5G6B5_UNORM_PACK16),
        DrmFourcc::Rgb888 => Some(vk_format::R8G8B8_UNORM),
        DrmFourcc::Rgb888_a8 => Some(vk_format::R8G8B8A8_UNORM),
        DrmFourcc::Rgba4444 | DrmFourcc::Rgbx4444 => Some(vk_format::R4G4B4A4_UNORM_PACK16),
        DrmFourcc::Rgba5551 | DrmFourcc::Rgbx5551 => Some(vk_format::R5G5B5A1_UNORM_PACK16),
        DrmFourcc::Rgba8888 | DrmFourcc::Rgbx8888 => Some(vk_format::R8G8B8A8_UNORM),
        _ => None,
    }
}

/// Looks up the Vulkan format for a DRM FourCC; `None` means the FourCC is unsupported.
/// Formats that differ only in an unused alpha channel share one Vulkan format.
pub fn drm_to_native(drm_format: DrmFourcc) -> (r: Option<i32>)
    ensures
        r == native_of_drm(drm_format),
{
    match drm_format {
        DrmFourcc::Abgr1555 | DrmFourcc::Xbgr1555 => Some(vk_format::R5G5B5A1_UNORM_PACK16),
        DrmFourcc::Abgr2101010 | DrmFourcc::Xbgr2101010 => Some(vk_format::A2B10G10R10_UNORM_PACK32),
        DrmFourcc::Abgr4444 | DrmFourcc::Xbgr4444 => Some(vk_format::A4B4G4R4_UNORM_PACK16),
        DrmFourcc::Abgr8888 | DrmFourcc::Xbgr8888 => Some(vk_format::R8G8B8A8_UNORM),
        DrmFourcc::Argb1555 | DrmFourcc::Xrgb1555 => Some(vk_format::A1R5G5B5_UNORM_PACK16),
        DrmFourcc::Argb2101010 | DrmFourcc::Xrgb2101010 => Some(vk_format::A2R10G10B10_UNORM_PACK32),
        DrmFourcc::Argb4444 | DrmFourcc::Xrgb4444 => Some(vk_format::B4G4R4A4_UNORM_PACK16),
        DrmFourcc::Argb8888 | DrmFourcc::Xrgb8888 => Some(vk_format::B8G8R8A8_UNORM),
        DrmFourcc::Bgr565 => Some(vk_format::B5G6R5_UNORM_PACK16),
        DrmFourcc::Bgr888 => Some(vk_format::B8G8R8_UNORM),
        DrmFourcc::Bgr888_a8 => Some(vk_format::B8G8R8A8_UNORM),
        DrmFourcc::Bgra4444 | DrmFourcc::Bgrx4444 => Some(vk_format::B4G4R4A4_UNORM_PACK16),
        DrmFourcc::Bgra5551 | DrmFourcc::Bgrx5551 => Some(vk_format::B5G5R5A1_UNORM_PACK16),
        DrmFourcc::Bgra8888 | DrmFourcc::Bgrx8888 => Some(vk_format::B8G8R8A8_UNORM),
        DrmFourcc::R16 => Some(vk_format::R16_UNORM),
        DrmFourcc::R8 => Some(vk_format::R8_UNORM),
        DrmFourcc::Rg1616 => Some(vk_format::R16G16_UNORM),
        DrmFourcc::Rg88 => Some(vk_format::R8G8_UNORM),
        DrmFourcc::Rgb565 => Some(vk_format::R5G6B5_UNORM_PACK16),
        DrmFourcc::Rgb888 => Some(vk_format::R8G8B8_UNORM),
        DrmFourcc::Rgb888_a8 => Some(vk_format::R8G8B8A8_UNORM),
        DrmFourcc::Rgba4444 | DrmFourcc::Rgbx4444 => Some(vk_format::R4G4B4A4_UNORM_PACK16),
        DrmFourcc::Rgba5551 | DrmFourcc::Rgbx5551 => Some(vk_format::R5G5B5A1_UNORM_PACK16),
        DrmFourcc::Rgba8888 | DrmFourcc::Rgbx8888 => Some(vk_format::R8G8B8A8_UNORM),
        _ => None,
    }
}

/// The DRM FourCC that a Vulkan format is exported as, where there is one.
pub open spec fn drm_of_native(vk_format: i32) -> Option<DrmFourcc> {
    match vk_format {
        vk_format::A2B10G10R10_UNORM_PACK32 | vk_format::A2B10G10R10_SINT_PACK32 => Some(DrmFourcc::Abgr2101010),
        vk_format::A2R10G10B10_UNORM_PACK32 | vk_format::A2R10G10B10_SINT_PACK32 => Some(DrmFourcc::Argb2101010),
        vk_format::B8G8R8_UNORM | vk_format::B8G8R8_SINT => Some(DrmFourcc::Bgr888),
        vk_format::R8G8B8A8_UNORM | vk_format::R8G8B8A8_SINT => Some(DrmFourcc::Rgba8888),
        vk_format::R8G8B8_UNORM | vk_format::R8G8B8_SINT => Some(DrmFourcc::Rgb888),
        vk_format::B8G8R8A8_UNORM | vk_format::B8G8R8A8_SINT => Some(DrmFourcc::Bgra8888),
        vk_format::R16_UNORM | vk_format::R16_SINT => Some(DrmFourcc::R16),
        vk_format::R8_UNORM | vk_format::R8_SINT => Some(DrmFourcc::R8),
        vk_format::R16G16_UNORM | vk_format::R16G16_SINT => Some(DrmFourcc::Rg1616),
        vk_format::R8G8_UNORM | vk_format::R8G8_SINT => Some(DrmFourcc::Rg88),
        vk_format::A4B4G4R4_UNORM_PACK16 => Some(DrmFourcc::Abgr4444),
        vk_format::A1R5G5B5_UNORM_PACK16 => Some(DrmFourcc::Argb1555),
        vk_format::B5G6R5_UNORM_PACK16 => Some(DrmFourcc::Bgr565),
        vk_format::B4G4R4A4_UNORM_PACK16 => Some(DrmFourcc::Bgra4444),
        vk_format::B5G5R5A1_UNORM_PACK16 => Some(DrmFourcc::Bgra5551),
        vk_format::R5G6B5_UNORM_PACK16 => Some(DrmFourcc::Rgb565),
        vk_format::R4G4B4A4_UNORM_PACK16 => Some(DrmFourcc::Rgba4444),
        vk_format::R5G5B5A1_UNORM_PACK16 => Some(DrmFourcc::Rgba5551),
        _ => None,
    }
}

/// Looks up the DRM FourCC for a Vulkan format; `None` means the format has no DRM analogue.
pub fn native_to_drm(vk_format: i32) -> (r: Option<DrmFourcc>)
    ensures
        r == drm_of_native(vk_format),
{
    match vk_format {
        vk_format::A2B10G10R10_UNORM_PACK32 | vk_format::A2B10G10R10_SINT_PACK32 => Some(DrmFourcc::Abgr2101010),
        vk_format::A2R10G10B10_UNORM_PACK32 | vk_format::A2R10G10B10_SINT_PACK32 => Some(DrmFourcc::Argb2101010),
        vk_format::B8G8R8_UNORM | vk_format::B8G8R8_SINT => Some(DrmFourcc::Bgr888),
        vk_format::R8G8B8A8_UNORM | vk_format::R8G8B8A8_SINT => Some(DrmFourcc::Rgba8888),
        vk_format::R8G8B8_UNORM | vk_format::R8G8B8_SINT => Some(DrmFourcc::Rgb888),
        vk_format::B8G8R8A8_UNORM | vk_format::B8G8R8A8_SINT => Some(DrmFourcc::Bgra8888),
        vk_format::R16_UNORM | vk_format::R16_SINT => Some(DrmFourcc::R16),
        vk_format::R8_UNORM | vk_format::R8_SINT => Some(DrmFourcc::R8),
        vk_format::R16G16_UNORM | vk_format::R16G16_SINT => Some(DrmFourcc::Rg1616),
        vk_format::R8G8_UNORM | vk_format::R8G8_SINT => Some(DrmFourcc::Rg88),
        vk_format::A4B4G4R4_UNORM_PACK16 => Some(DrmFourcc::Abgr4444),
        vk_format::A1R5G5B5_UNORM_PACK16 => Some(DrmFourcc::Argb1555),
        vk_format::B5G6R5_UNORM_PACK16 => Some(DrmFourcc::Bgr565),
        vk_format::B4G4R4A4_UNORM_PACK16 => Some(DrmFourcc::Bgra4444),
        vk_format::B5G5R5A1_UNORM_PACK16 => Some(DrmFourcc::Bgra5551),
        vk_format::R5G6B5_UNORM_PACK16 => Some(DrmFourcc::Rgb565),
        vk_format::R4G4B4A4_UNORM_PACK16 => Some(DrmFourcc::Rgba4444),
        vk_format::R5G5B5A1_UNORM_PACK16 => Some(DrmFourcc::Rgba5551),
        _ => None,
    }
}

/// The sRGB-encoded twin of a linear Vulkan format, where there is one.
pub open spec fn srgb_of_native(vk_format: i32) -> Option<i32> {
    match vk_format {
        vk_format::R8_UNORM => Some(vk_format::R8_SRGB),
        vk_format::R8G8_UNORM => Some(vk_format::R8G8_SRGB),
        vk_format::R8G8B8_UNORM => Some(vk_format::R8G8B8_SRGB),
        vk_format::B8G8R8_UNORM => Some(vk_format::B8G8R8_SRGB),
        vk_format::R8G8B8A8_UNORM => Some(vk_format::R8G8B8A8_SRGB),
        vk_format::B8G8R8A8_UNORM => Some(vk_format::B8G8R8A8_SRGB),
        vk_format::A8B8G8R8_UNORM_PACK32 => Some(vk_format::A8B8G8R8_SRGB_PACK32),
        vk_format::BC1_RGB_UNORM_BLOCK => Some(vk_format::BC1_RGB_SRGB_BLOCK),
        vk_format::BC1_RGBA_UNORM_BLOCK => Some(vk_format::BC1_RGBA_SRGB_BLOCK),
        vk_format::BC2_UNORM_BLOCK => Some(vk_format::BC2_SRGB_BLOCK),
        vk_format::BC3_UNORM_BLOCK => Some(vk_format::BC3_SRGB_BLOCK),
        vk_format::BC7_UNORM_BLOCK => Some(vk_format::BC7_SRGB_BLOCK),
        vk_format::ETC2_R8G8B8_UNORM_BLOCK => Some(vk_format::ETC2_R8G8B8_SRGB_BLOCK),
        vk_format::ETC2_R8G8B8A1_UNORM_BLOCK => Some(vk_format::ETC2_R8G8B8A1_SRGB_BLOCK),
        vk_format::ETC2_R8G8B8A8_UNORM_BLOCK => Some(vk_format::ETC2_R8G8B8A8_SRGB_BLOCK),
        _ => None,
    }
}

/// Looks up the sRGB-encoded variant of a linear Vulkan format.
pub fn to_srgb_variant(vk_format: i32) -> (r: Option<i32>)
    ensures
        r == srgb_of_native(vk_format),
{
    match vk_format {
        vk_format::R8_UNORM => Some(vk_format::R8_SRGB),
        vk_format::R8G8_UNORM => Some(vk_format::R8G8_SRGB),
        vk_format::R8G8B8_UNORM => Some(vk_format::R8G8B8_SRGB),
        vk_format::B8G8R8_UNORM => Some(vk_format::B8G8R8_SRGB),
        vk_format::R8G8B8A8_UNORM => Some(vk_format::R8G8B8A8_SRGB),
        vk_format::B8G8R8A8_UNORM => Some(vk_format::B8G8R8A8_SRGB),
        vk_format::A8B8G8R8_UNORM_PACK32 => Some(vk_format::A8B8G8R8_SRGB_PACK32),
        vk_format::BC1_RGB_UNORM_BLOCK => Some(vk_format::BC1_RGB_SRGB_BLOCK),
        vk_format::BC1_RGBA_UNORM_BLOCK => Some(vk_format::BC1_RGBA_SRGB_BLOCK),
        vk_format::BC2_UNORM_BLOCK => Some(vk_format::BC2_SRGB_BLOCK),
        vk_format::BC3_UNORM_BLOCK => Some(vk_format::BC3_SRGB_BLOCK),
        vk_format::BC7_UNORM_BLOCK => Some(vk_format::BC7_SRGB_BLOCK),
        vk_format::ETC2_R8G8B8_UNORM_BLOCK => Some(vk_format::ETC2_R8G8B8_SRGB_BLOCK),
        vk_format::ETC2_R8G8B8A1_UNORM_BLOCK => Some(vk_format::ETC2_R8G8B8A1_SRGB_BLOCK),
        vk_format::ETC2_R8G8B8A8_UNORM_BLOCK => Some(vk_format::ETC2_R8G8B8A8_SRGB_BLOCK),
        _ => None,
    }
}

/// The renderer format that views a Vulkan format without conversion, where there is one.
pub open spec fn wgpu_of_native(format: i32) -> Option<TextureFormat> {
    match format {
        vk_format::R8_UNORM => Some(TextureFormat::R8Unorm),
        vk_format::R8_SNORM => Some(TextureFormat::R8Snorm),
        vk_format::R8_UINT => Some(TextureFormat::R8Uint),
        vk_format::R8_SINT => Some(TextureFormat::R8Sint),
        vk_format::R16_UINT => Some(TextureFormat::R16Uint),
        vk_format::R16_SINT => Some(TextureFormat::R16Sint),
        vk_format::R16_UNORM => Some(TextureFormat::R16Unorm),
        vk_format::R16_SNORM => Some(TextureFormat::R16Snorm),
        vk_format::R16_SFLOAT => Some(TextureFormat::R16Float),
        vk_format::R8G8_UNORM => Some(TextureFormat::Rg8Unorm),
        vk_format::R8G8_SNORM => Some(TextureFormat::Rg8Snorm),
        vk_format::R8G8_UINT => Some(TextureFormat::Rg8Uint),
        vk_format::R8G8_SINT => Some(TextureFormat::Rg8Sint),
        vk_format::R16G16_UNORM => Some(TextureFormat::Rg16Unorm),
        vk_format::R16G16_SNORM => Some(TextureFormat::Rg16Snorm),
        vk_format::R32_UINT => Some(TextureFormat::R32Uint),
        vk_format::R32_SINT => Some(TextureFormat::R32Sint),
        vk_format::R32_SFLOAT => Some(TextureFormat::R32Float),
        vk_format::R16G16_UINT => Some(TextureFormat::Rg16Uint),
        vk_format::R16G16_SINT => Some(TextureFormat::Rg16Sint),
        vk_format::R16G16_SFLOAT => Some(TextureFormat::Rg16Float),
        vk_format::R8G8B8A8_UNORM => Some(TextureFormat::Rgba8Unorm),
        vk_format::R8G8B8A8_SRGB => Some(TextureFormat::Rgba8UnormSrgb),
        vk_format::B8G8R8A8_SRGB => Some(TextureFormat::Bgra8UnormSrgb),
        vk_format::R8G8B8A8_SNORM => Some(TextureFormat::Rgba8Snorm),
        vk_format::B8G8R8A8_UNORM => Some(TextureFormat::Bgra8Unorm),
        vk_format::B8G8R8A8_UINT => Some(TextureFormat::Bgra8Unorm),
        vk_format::R8G8B8A8_UINT => Some(TextureFormat::Rgba8Uint),
        vk_format::R8G8B8A8_SINT => Some(TextureFormat::Rgba8Sint),
        vk_format::A2B10G10R10_UINT_PACK32 => Some(TextureFormat::Rgb10a2Uint),
        vk_format::A2B10G10R10_UNORM_PACK32 => Some(TextureFormat::Rgb10a2Unorm),
        vk_format::B10G11R11_UFLOAT_PACK32 => Some(TextureFormat::Rg11b10Ufloat),
        vk_format::R32G32_UINT => Some(TextureFormat::Rg32Uint),
        vk_format::R32G32_SINT => Some(TextureFormat::Rg32Sint),
        vk_format::R32G32_SFLOAT => Some(TextureFormat::Rg32Float),
        vk_format::R16G16B16A16_UINT => Some(TextureFormat::Rgba16Uint),
        vk_format::R16G16B16A16_SINT => Some(TextureFormat::Rgba16Sint),
        vk_format::R16G16B16A16_UNORM => Some(TextureFormat::Rgba16Unorm),
        vk_format::R16G16B16A16_SNORM => Some(TextureFormat::Rgba16Snorm),
        vk_format::R16G16B16A16_SFLOAT => Some(TextureFormat::Rgba16Float),
        vk_format::R32G32B32A32_UINT => Some(TextureFormat::Rgba32Uint),
        vk_format::R32G32B32A32_SINT => Some(TextureFormat::Rgba32Sint),
        vk_format::R32G32B32A32_SFLOAT => Some(TextureFormat::Rgba32Float),
        vk_format::D32_SFLOAT => Some(TextureFormat::Depth32Float),
        vk_format::D32_SFLOAT_S8_UINT => Some(TextureFormat::Depth32FloatStencil8),
        vk_format::D16_UNORM => Some(TextureFormat::Depth16Unorm),
        vk_format::G8_B8R8_2PLANE_420_UNORM => Some(TextureFormat::NV12),
        vk_format::E5B9G9R9_UFLOAT_PACK32 => Some(TextureFormat::Rgb9e5Ufloat),
        vk_format::BC1_RGBA_UNORM_BLOCK => Some(TextureFormat::Bc1RgbaUnorm),
        vk_format::BC1_RGBA_SRGB_BLOCK => Some(TextureFormat::Bc1RgbaUnormSrgb),
        vk_format::BC2_UNORM_BLOCK => Some(TextureFormat::Bc2RgbaUnorm),
        vk_format::BC2_SRGB_BLOCK => Some(TextureFormat::Bc2RgbaUnormSrgb),
        vk_format::BC3_UNORM_BLOCK => Some(TextureFormat::Bc3RgbaUnorm),
        vk_format::BC3_SRGB_BLOCK => Some(TextureFormat::Bc3RgbaUnormSrgb),
        vk_format::BC4_UNORM_BLOCK => Some(TextureFormat::Bc4RUnorm),
        vk_format::BC4_SNORM_BLOCK => Some(TextureFormat::Bc4RSnorm),
        vk_format::BC5_UNORM_BLOCK => Some(TextureFormat::Bc5RgUnorm),
        vk_format::BC5_SNORM_BLOCK => Some(TextureFormat::Bc5RgSnorm),
        vk_format::BC6H_UFLOAT_BLOCK => Some(TextureFormat::Bc6hRgbUfloat),
        vk_format::BC6H_SFLOAT_BLOCK => Some(TextureFormat::Bc6hRgbFloat),
        vk_format::BC7_UNORM_BLOCK => Some(TextureFormat::Bc7RgbaUnorm),
        vk_format::BC7_SRGB_BLOCK => Some(TextureFormat::Bc7RgbaUnormSrgb),
        vk_format::ETC2_R8G8B8_UNORM_BLOCK => Some(TextureFormat::Etc2Rgb8Unorm),
        vk_format::ETC2_R8G8B8_SRGB_BLOCK => Some(TextureFormat::Etc2Rgb8UnormSrgb),
        vk_format::ETC2_R8G8B8A1_UNORM_BLOCK => Some(TextureFormat::Etc2Rgb8A1Unorm),
        vk_format::ETC2_R8G8B8A1_SRGB_BLOCK => Some(TextureFormat::Etc2Rgb8A1UnormSrgb),
        vk_format::ETC2_R8G8B8A8_UNORM_BLOCK => Some(TextureFormat::Etc2Rgba8Unorm),
        vk_format::ETC2_R8G8B8A8_SRGB_BLOCK => Some(TextureFormat::Etc2Rgba8UnormSrgb),
        vk_format::EAC_R11_UNORM_BLOCK => Some(TextureFormat::EacR11Unorm),
        vk_format::EAC_R11_SNORM_BLOCK => Some(TextureFormat::EacR11Snorm),
        vk_format::EAC_R11G11_UNORM_BLOCK => Some(TextureFormat::EacRg11Unorm),
        vk_format::EAC_R11G11_SNORM_BLOCK => Some(TextureFormat::EacRg11Snorm),
        vk_format::ASTC_4X4_UNORM_BLOCK => Some(TextureFormat::Astc { block: AstcBlock::B4x4, channel: AstcChannel::Unorm }),
        vk_format::ASTC_5X4_UNORM_BLOCK => Some(TextureFormat::Astc { block: AstcBlock::B5x4, channel: AstcChannel::Unorm }),
        vk_format::ASTC_5X5_UNORM_BLOCK => Some(TextureFormat::Astc { block: AstcBlock::B5x5, channel: AstcChannel::Unorm }),
        vk_format::ASTC_6X5_UNORM_BLOCK => Some(TextureFormat::Astc { block: AstcBlock::B6x5, channel: AstcChannel::Unorm }),
        vk_format::ASTC_6X6_UNORM_BLOCK => Some(TextureFormat::Astc { block: AstcBlock::B6x6, channel: AstcChannel::Unorm }),
        vk_format::ASTC_8X5_UNORM_BLOCK => Some(TextureFormat::Astc { block: AstcBlock::B8x5, channel: AstcChannel::Unorm }),
        vk_format::ASTC_8X6_UNORM_BLOCK => Some(TextureFormat::Astc { block: AstcBlock::B8x6, channel: AstcChannel::Unorm }),
        vk_format::ASTC_8X8_UNORM_BLOCK => Some(TextureFormat::Astc { block: AstcBlock::B8x8, channel: AstcChannel::Unorm }),
        vk_format::ASTC_10X5_UNORM_BLOCK => Some(TextureFormat::Astc { block: AstcBlock::B10x5, channel: AstcChannel::Unorm }),
        vk_format::ASTC_10X6_UNORM_BLOCK => Some(TextureFormat::Astc { block: AstcBlock::B10x6, channel: AstcChannel::Unorm }),
        vk_format::ASTC_10X8_UNORM_BLOCK => Some(TextureFormat::Astc { block: AstcBlock::B10x8, channel: AstcChannel::Unorm }),
        vk_format::ASTC_10X10_UNORM_BLOCK => Some(TextureFormat::Astc { block: AstcBlock::B10x10, channel: AstcChannel::Unorm }),
        vk_format::ASTC_12X10_UNORM_BLOCK => Some(TextureFormat::Astc { block: AstcBlock::B12x10, channel: AstcChannel::Unorm }),
        vk_format::ASTC_12X12_UNORM_BLOCK => Some(TextureFormat::Astc { block: AstcBlock::B12x12, channel: AstcChannel::Unorm }),
        vk_format::ASTC_4X4_SRGB_BLOCK => Some(TextureFormat::Astc { block: AstcBlock::B4x4, channel: AstcChannel::UnormSrgb }),
        vk_format::ASTC_5X4_SRGB_BLOCK => Some(TextureFormat::Astc { block: AstcBlock::B5x4, channel: AstcChannel::UnormSrgb }),
        vk_format::ASTC_5X5_SRGB_BLOCK => Some(TextureFormat::Astc { block: AstcBlock::B5x5, channel: AstcChannel::UnormSrgb }),
        vk_format::ASTC_6X5_SRGB_BLOCK => Some(TextureFormat::Astc { block: AstcBlock::B6x5, channel: AstcChannel::UnormSrgb }),
        vk_format::ASTC_6X6_SRGB_BLOCK => Some(TextureFormat::Astc { block: AstcBlock::B6x6, channel: AstcChannel::UnormSrgb }),
        vk_format::ASTC_8X5_SRGB_BLOCK => Some(TextureFormat::Astc { block: AstcBlock::B8x5, channel: AstcChannel::UnormSrgb }),
        vk_format::ASTC_8X6_SRGB_BLOCK => Some(TextureFormat::Astc { block: AstcBlock::B8x6, channel: AstcChannel::UnormSrgb }),
        vk_format::ASTC_8X8_SRGB_BLOCK => Some(TextureFormat::Astc { block: AstcBlock::B8x8, channel: AstcChannel::UnormSrgb }),
        vk_format::ASTC_10X5_SRGB_BLOCK => Some(TextureFormat::Astc { block: AstcBlock::B10x5, channel: AstcChannel::UnormSrgb }),
        vk_format::ASTC_10X6_SRGB_BLOCK => Some(TextureFormat::Astc { block: AstcBlock::B10x6, channel: AstcChannel::UnormSrgb }),
        vk_format::ASTC_10X8_SRGB_BLOCK => Some(TextureFormat::Astc { block: AstcBlock::B10x8, channel: AstcChannel::UnormSrgb }),
        vk_format::ASTC_10X10_SRGB_BLOCK => Some(TextureFormat::Astc { block: AstcBlock::B10x10, channel: AstcChannel::UnormSrgb }),
        vk_format::ASTC_12X10_SRGB_BLOCK => Some(TextureFormat::Astc { block: AstcBlock::B12x10, channel: AstcChannel::UnormSrgb }),
        vk_format::ASTC_12X12_SRGB_BLOCK => Some(TextureFormat::Astc { block: AstcBlock::B12x12, channel: AstcChannel::UnormSrgb }),
        vk_format::ASTC_4X4_SFLOAT_BLOCK_EXT => Some(TextureFormat::Astc { block: AstcBlock::B4x4, channel: AstcChannel::Hdr }),
        vk_format::ASTC_5X4_SFLOAT_BLOCK_EXT => Some(TextureFormat::Astc { block: AstcBlock::B5x4, channel: AstcChannel::Hdr }),
        vk_format::ASTC_5X5_SFLOAT_BLOCK_EXT => Some(TextureFormat::Astc { block: AstcBlock::B5x5, channel: AstcChannel::Hdr }),
        vk_format::ASTC_6X5_SFLOAT_BLOCK_EXT => Some(TextureFormat::Astc { block: AstcBlock::B6x5, channel: AstcChannel::Hdr }),
        vk_format::ASTC_6X6_SFLOAT_BLOCK_EXT => Some(TextureFormat::Astc { block: AstcBlock::B6x6, channel: AstcChannel::Hdr }),
        vk_format::ASTC_8X5_SFLOAT_BLOCK_EXT => Some(TextureFormat::Astc { block: AstcBlock::B8x5, channel: AstcChannel::Hdr }),
        vk_format::ASTC_8X6_SFLOAT_BLOCK_EXT => Some(TextureFormat::Astc { block: AstcBlock::B8x6, channel: AstcChannel::Hdr }),
        vk_format::ASTC_8X8_SFLOAT_BLOCK_EXT => Some(TextureFormat::Astc { block: AstcBlock::B8x8, channel: AstcChannel::Hdr }),
        vk_format::ASTC_10X5_SFLOAT_BLOCK_EXT => Some(TextureFormat::Astc { block: AstcBlock::B10x5, channel: AstcChannel::Hdr }),
        vk_format::ASTC_10X6_SFLOAT_BLOCK_EXT => Some(TextureFormat::Astc { block: AstcBlock::B10x6, channel: AstcChannel::Hdr }),
        vk_format::ASTC_10X8_SFLOAT_BLOCK_EXT => Some(TextureFormat::Astc { block: AstcBlock::B10x8, channel: AstcChannel::Hdr }),
        vk_format::ASTC_10X10_SFLOAT_BLOCK_EXT => Some(TextureFormat::Astc { block: AstcBlock::B10x10, channel: AstcChannel::Hdr }),
        vk_format::ASTC_12X10_SFLOAT_BLOCK_EXT => Some(TextureFormat::Astc { block: AstcBlock::B12x10, channel: AstcChannel::Hdr }),
        vk_format::ASTC_12X12_SFLOAT_BLOCK_EXT => Some(TextureFormat::Astc { block: AstcBlock::B12x12, channel: AstcChannel::Hdr }),
        _ => None,
    }
}

/// Maps a Vulkan format to the renderer's texture format.
pub fn vulkan_to_wgpu(format: i32) -> (r: Option<TextureFormat>)
    ensures
        r == wgpu_of_native(format),
{
    match format {
        vk_format::R8_UNORM => Some(TextureFormat::R8Unorm),
        vk_format::R8_SNORM => Some(TextureFormat::R8Snorm),
        vk_format::R8_UINT => Some(TextureFormat::R8Uint),
        vk_format::R8_SINT => Some(TextureFormat::R8Sint),
        vk_format::R16_UINT => Some(TextureFormat::R16Uint),
        vk_format::R16_SINT => Some(TextureFormat::R16Sint),
        vk_format::R16_UNORM => Some(TextureFormat::R16Unorm),
        vk_format::R16_SNORM => Some(TextureFormat::R16Snorm),
        vk_format::R16_SFLOAT => Some(TextureFormat::R16Float),
        vk_format::R8G8_UNORM => Some(TextureFormat::Rg8Unorm),
        vk_format::R8G8_SNORM => Some(TextureFormat::Rg8Snorm),
        vk_format::R8G8_UINT => Some(TextureFormat::Rg8Uint),
        vk_format::R8G8_SINT => Some(TextureFormat::Rg8Sint),
        vk_format::R16G16_UNORM => Some(TextureFormat::Rg16Unorm),
        vk_format::R16G16_SNORM => Some(TextureFormat::Rg16Snorm),
        vk_format::R32_UINT => Some(TextureFormat::R32Uint),
        vk_format::R32_SINT => Some(TextureFormat::R32Sint),
        vk_format::R32_SFLOAT => Some(TextureFormat::R32Float),
        vk_format::R16G16_UINT => Some(TextureFormat::Rg16Uint),
        vk_format::R16G16_SINT => Some(TextureFormat::Rg16Sint),
        vk_format::R16G16_SFLOAT => Some(TextureFormat::Rg16Float),
        vk_format::R8G8B8A8_UNORM => Some(TextureFormat::Rgba8Unorm),
        vk_format::R8G8B8A8_SRGB => Some(TextureFormat::Rgba8UnormSrgb),
        vk_format::B8G8R8A8_SRGB => Some(TextureFormat::Bgra8UnormSrgb),
        vk_format::R8G8B8A8_SNORM => Some(TextureFormat::Rgba8Snorm),
        vk_format::B8G8R8A8_UNORM => Some(TextureFormat::Bgra8Unorm),
        vk_format::B8G8R8A8_UINT => Some(TextureFormat::Bgra8Unorm),
        vk_format::R8G8B8A8_UINT => Some(TextureFormat::Rgba8Uint),
        vk_format::R8G8B8A8_SINT => Some(TextureFormat::Rgba8Sint),
        vk_format::A2B10G10R10_UINT_PACK32 => Some(TextureFormat::Rgb10a2Uint),
        vk_format::A2B10G10R10_UNORM_PACK32 => Some(TextureFormat::Rgb10a2Unorm),
        vk_format::B10G11R11_UFLOAT_PACK32 => Some(TextureFormat::Rg11b10Ufloat),
        vk_format::R32G32_UINT => Some(TextureFormat::Rg32Uint),
        vk_format::R32G32_SINT => Some(TextureFormat::Rg32Sint),
        vk_format::R32G32_SFLOAT => Some(TextureFormat::Rg32Float),
        vk_format::R16G16B16A16_UINT => Some(TextureFormat::Rgba16Uint),
        vk_format::R16G16B16A16_SINT => Some(TextureFormat::Rgba16Sint),
        vk_format::R16G16B16A16_UNORM => Some(TextureFormat::Rgba16Unorm),
        vk_format::R16G16B16A16_SNORM => Some(TextureFormat::Rgba16Snorm),
        vk_format::R16G16B16A16_SFLOAT => Some(TextureFormat::Rgba16Float),
        vk_format::R32G32B32A32_UINT => Some(TextureFormat::Rgba32Uint),
        vk_format::R32G32B32A32_SINT => Some(TextureFormat::Rgba32Sint),
        vk_format::R32G32B32A32_SFLOAT => Some(TextureFormat::Rgba32Float),
        vk_format::D32_SFLOAT => Some(TextureFormat::Depth32Float),
        vk_format::D32_SFLOAT_S8_UINT => Some(TextureFormat::Depth32FloatStencil8),
        vk_format::D16_UNORM => Some(TextureFormat::Depth16Unorm),
        vk_format::G8_B8R8_2PLANE_420_UNORM => Some(TextureFormat::NV12),
        vk_format::E5B9G9R9_UFLOAT_PACK32 => Some(TextureFormat::Rgb9e5Ufloat),
        vk_format::BC1_RGBA_UNORM_BLOCK => Some(TextureFormat::Bc1RgbaUnorm),
        vk_format::BC1_RGBA_SRGB_BLOCK => Some(TextureFormat::Bc1RgbaUnormSrgb),
        vk_format::BC2_UNORM_BLOCK => Some(TextureFormat::Bc2RgbaUnorm),
        vk_format::BC2_SRGB_BLOCK => Some(TextureFormat::Bc2RgbaUnormSrgb),
        vk_format::BC3_UNORM_BLOCK => Some(TextureFormat::Bc3RgbaUnorm),
        vk_format::BC3_SRGB_BLOCK => Some(TextureFormat::Bc3RgbaUnormSrgb),
        vk_format::BC4_UNORM_BLOCK => Some(TextureFormat::Bc4RUnorm),
        vk_format::BC4_SNORM_BLOCK => Some(TextureFormat::Bc4RSnorm),
        vk_format::BC5_UNORM_BLOCK => Some(TextureFormat::Bc5RgUnorm),
        vk_format::BC5_SNORM_BLOCK => Some(TextureFormat::Bc5RgSnorm),
        vk_format::BC6H_UFLOAT_BLOCK => Some(TextureFormat::Bc6hRgbUfloat),
        vk_format::BC6H_SFLOAT_BLOCK => Some(TextureFormat::Bc6hRgbFloat),
        vk_format::BC7_UNORM_BLOCK => Some(TextureFormat::Bc7RgbaUnorm),
        vk_format::BC7_SRGB_BLOCK => Some(TextureFormat::Bc7RgbaUnormSrgb),
        vk_format::ETC2_R8G8B8_UNORM_BLOCK => Some(TextureFormat::Etc2Rgb8Unorm),
        vk_format::ETC2_R8G8B8_SRGB_BLOCK => Some(TextureFormat::Etc2Rgb8UnormSrgb),
        vk_format::ETC2_R8G8B8A1_UNORM_BLOCK => Some(TextureFormat::Etc2Rgb8A1Unorm),
        vk_format::ETC2_R8G8B8A1_SRGB_BLOCK => Some(TextureFormat::Etc2Rgb8A1UnormSrgb),
        vk_format::ETC2_R8G8B8A8_UNORM_BLOCK => Some(TextureFormat::Etc2Rgba8Unorm),
        vk_format::ETC2_R8G8B8A8_SRGB_BLOCK => Some(TextureFormat::Etc2Rgba8UnormSrgb),
        vk_format::EAC_R11_UNORM_BLOCK => Some(TextureFormat::EacR11Unorm),
        vk_format::EAC_R11_SNORM_BLOCK => Some(TextureFormat::EacR11Snorm),
        vk_format::EAC_R11G11_UNORM_BLOCK => Some(TextureFormat::EacRg11Unorm),
        vk_format::EAC_R11G11_SNORM_BLOCK => Some(TextureFormat::EacRg11Snorm),
        vk_format::ASTC_4X4_UNORM_BLOCK => Some(TextureFormat::Astc { block: AstcBlock::B4x4, channel: AstcChannel::Unorm }),
        vk_format::ASTC_5X4_UNORM_BLOCK => Some(TextureFormat::Astc { block: AstcBlock::B5x4, channel: AstcChannel::Unorm }),
        vk_format::ASTC_5X5_UNORM_BLOCK => Some(TextureFormat::Astc { block: AstcBlock::B5x5, channel: AstcChannel::Unorm }),
        vk_format::ASTC_6X5_UNORM_BLOCK => Some(TextureFormat::Astc { block: AstcBlock::B6x5, channel: AstcChannel::Unorm }),
        vk_format::ASTC_6X6_UNORM_BLOCK => Some(TextureFormat::Astc { block: AstcBlock::B6x6, channel: AstcChannel::Unorm }),
        vk_format::ASTC_8X5_UNORM_BLOCK => Some(TextureFormat::Astc { block: AstcBlock::B8x5, channel: AstcChannel::Unorm }),
        vk_format::ASTC_8X6_UNORM_BLOCK => Some(TextureFormat::Astc { block: AstcBlock::B8x6, channel: AstcChannel::Unorm }),
        vk_format::ASTC_8X8_UNORM_BLOCK => Some(TextureFormat::Astc { block: AstcBlock::B8x8, channel: AstcChannel::Unorm }),
        vk_format::ASTC_10X5_UNORM_BLOCK => Some(TextureFormat::Astc { block: AstcBlock::B10x5, channel: AstcChannel::Unorm }),
        vk_format::ASTC_10X6_UNORM_BLOCK => Some(TextureFormat::Astc { block: AstcBlock::B10x6, channel: AstcChannel::Unorm }),
        vk_format::ASTC_10X8_UNORM_BLOCK => Some(TextureFormat::Astc { block: AstcBlock::B10x8, channel: AstcChannel::Unorm }),
        vk_format::ASTC_10X10_UNORM_BLOCK => Some(TextureFormat::Astc { block: AstcBlock::B10x10, channel: AstcChannel::Unorm }),
        vk_format::ASTC_12X10_UNORM_BLOCK => Some(TextureFormat::Astc { block: AstcBlock::B12x10, channel: AstcChannel::Unorm }),
        vk_format::ASTC_12X12_UNORM_BLOCK => Some(TextureFormat::Astc { block: AstcBlock::B12x12, channel: AstcChannel::Unorm }),
        vk_format::ASTC_4X4_SRGB_BLOCK => Some(TextureFormat::Astc { block: AstcBlock::B4x4, channel: AstcChannel::UnormSrgb }),
        vk_format::ASTC_5X4_SRGB_BLOCK => Some(TextureFormat::Astc { block: AstcBlock::B5x4, channel: AstcChannel::UnormSrgb }),
        vk_format::ASTC_5X5_SRGB_BLOCK => Some(TextureFormat::Astc { block: AstcBlock::B5x5, channel: AstcChannel::UnormSrgb }),
        vk_format::ASTC_6X5_SRGB_BLOCK => Some(TextureFormat::Astc { block: AstcBlock::B6x5, channel: AstcChannel::UnormSrgb }),
        vk_format::ASTC_6X6_SRGB_BLOCK => Some(TextureFormat::Astc { block: AstcBlock::B6x6, channel: AstcChannel::UnormSrgb }),
        vk_format::ASTC_8X5_SRGB_BLOCK => Some(TextureFormat::Astc { block: AstcBlock::B8x5, channel: AstcChannel::UnormSrgb }),
        vk_format::ASTC_8X6_SRGB_BLOCK => Some(TextureFormat::Astc { block: AstcBlock::B8x6, channel: AstcChannel::UnormSrgb }),
        vk_format::ASTC_8X8_SRGB_BLOCK => Some(TextureFormat::Astc { block: AstcBlock::B8x8, channel: AstcChannel::UnormSrgb }),
        vk_format::ASTC_10X5_SRGB_BLOCK => Some(TextureFormat::Astc { block: AstcBlock::B10x5, channel: AstcChannel::UnormSrgb }),
        vk_format::ASTC_10X6_SRGB_BLOCK => Some(TextureFormat::Astc { block: AstcBlock::B10x6, channel: AstcChannel::UnormSrgb }),
        vk_format::ASTC_10X8_SRGB_BLOCK => Some(TextureFormat::Astc { block: AstcBlock::B10x8, channel: AstcChannel::UnormSrgb }),
        vk_format::ASTC_10X10_SRGB_BLOCK => Some(TextureFormat::Astc { block: AstcBlock::B10x10, channel: AstcChannel::UnormSrgb }),
        vk_format::ASTC_12X10_SRGB_BLOCK => Some(TextureFormat::Astc { block: AstcBlock::B12x10, channel: AstcChannel::UnormSrgb }),
        vk_format::ASTC_12X12_SRGB_BLOCK => Some(TextureFormat::Astc { block: AstcBlock::B12x12, channel: AstcChannel::UnormSrgb }),
        vk_format::ASTC_4X4_SFLOAT_BLOCK_EXT => Some(TextureFormat::Astc { block: AstcBlock::B4x4, channel: AstcChannel::Hdr }),
        vk_format::ASTC_5X4_SFLOAT_BLOCK_EXT => Some(TextureFormat::Astc { block: AstcBlock::B5x4, channel: AstcChannel::Hdr }),
        vk_format::ASTC_5X5_SFLOAT_BLOCK_EXT => Some(TextureFormat::Astc { block: AstcBlock::B5x5, channel: AstcChannel::Hdr }),
        vk_format::ASTC_6X5_SFLOAT_BLOCK_EXT => Some(TextureFormat::Astc { block: AstcBlock::B6x5, channel: AstcChannel::Hdr }),
        vk_format::ASTC_6X6_SFLOAT_BLOCK_EXT => Some(TextureFormat::Astc { block: AstcBlock::B6x6, channel: AstcChannel::Hdr }),
        vk_format::ASTC_8X5_SFLOAT_BLOCK_EXT => Some(TextureFormat::Astc { block: AstcBlock::B8x5, channel: AstcChannel::Hdr }),
        vk_format::ASTC_8X6_SFLOAT_BLOCK_EXT => Some(TextureFormat::Astc { block: AstcBlock::B8x6, channel: AstcChannel::Hdr }),
        vk_format::ASTC_8X8_SFLOAT_BLOCK_EXT => Some(TextureFormat::Astc { block: AstcBlock::B8x8, channel: AstcChannel::Hdr }),
        vk_format::ASTC_10X5_SFLOAT_BLOCK_EXT => Some(TextureFormat::Astc { block: AstcBlock::B10x5, channel: AstcChannel::Hdr }),
        vk_format::ASTC_10X6_SFLOAT_BLOCK_EXT => Some(TextureFormat::Astc { block: AstcBlock::B10x6, channel: AstcChannel::Hdr }),
        vk_format::ASTC_10X8_SFLOAT_BLOCK_EXT => Some(TextureFormat::Astc { block: AstcBlock::B10x8, channel: AstcChannel::Hdr }),
        vk_format::ASTC_10X10_SFLOAT_BLOCK_EXT => Some(TextureFormat::Astc { block: AstcBlock::B10x10, channel: AstcChannel::Hdr }),
        vk_format::ASTC_12X10_SFLOAT_BLOCK_EXT => Some(TextureFormat::Astc { block: AstcBlock::B12x10, channel: AstcChannel::Hdr }),
        vk_format::ASTC_12X12_SFLOAT_BLOCK_EXT => Some(TextureFormat::Astc { block: AstcBlock::B12x12, channel: AstcChannel::Hdr }),
        _ => None,
    }
}

/// The renderer format for a DRM FourCC. Packed 16-bit and 24-bit formats, which the renderer lacks, are promoted to the 32-bit RGBA or BGRA format of the same channel order.
pub open spec fn wgpu_of_drm(drm_format: DrmFourcc) -> Option<TextureFormat> {
    match drm_format {
        DrmFourcc::R8 => Some(TextureFormat::R8Unorm),
        DrmFourcc::R16 => Some(TextureFormat::R16Unorm),
        DrmFourcc::Rg88 => Some(TextureFormat::Rg8Unorm),
        DrmFourcc::Rg1616 => Some(TextureFormat::Rg16Unorm),
        DrmFourcc::Abgr1555 | DrmFourcc::Xbgr1555 => Some(TextureFormat::Rgba8Unorm),
        DrmFourcc::Argb1555 | DrmFourcc::Xrgb1555 => Some(TextureFormat::Bgra8Unorm),
        DrmFourcc::Abgr4444 | DrmFourcc::Xbgr4444 => Some(TextureFormat::Rgba8Unorm),
        DrmFourcc::Argb4444 | DrmFourcc::Xrgb4444 => Some(TextureFormat::Bgra8Unorm),
        DrmFourcc::Bgra4444 | DrmFourcc::Bgrx4444 => Some(TextureFormat::Bgra8Unorm),
        DrmFourcc::Bgra5551 | DrmFourcc::Bgrx5551 => Some(TextureFormat::Bgra8Unorm),
        DrmFourcc::Rgba4444 | DrmFourcc::Rgbx4444 => Some(TextureFormat::Rgba8Unorm),
        DrmFourcc::Rgba5551 | DrmFourcc::Rgbx5551 => Some(TextureFormat::Rgba8Unorm),
        DrmFourcc::Bgr565 => Some(TextureFormat::Bgra8Unorm),
        DrmFourcc::Rgb565 => Some(TextureFormat::Rgba8Unorm),
        DrmFourcc::Rgb888 => Some(TextureFormat::Rgba8Unorm),
        DrmFourcc::Bgr888 => Some(TextureFormat::Bgra8Unorm),
        DrmFourcc::Rgba8888 | DrmFourcc::Rgbx8888 => Some(TextureFormat::Rgba8Unorm),
        DrmFourcc::Bgra8888 | DrmFourcc::Bgrx8888 => Some(TextureFormat::Bgra8Unorm),
        DrmFourcc::Argb8888 | DrmFourcc::Xrgb8888 => Some(TextureFormat::Bgra8Unorm),
        DrmFourcc::Abgr8888 | DrmFourcc::Xbgr8888 => Some(TextureFormat::Rgba8Unorm),
        DrmFourcc::Rgb888_a8 => Some(TextureFormat::Rgba8Unorm),
        DrmFourcc::Bgr888_a8 => Some(TextureFormat::Bgra8Unorm),
        DrmFourcc::Argb2101010 | DrmFourcc::Xrgb2101010 => Some(TextureFormat::Rgb10a2Unorm),
        DrmFourcc::Abgr2101010 | DrmFourcc::Xbgr2101010 => Some(TextureFormat::Rgb10a2Unorm),
        _ => None,
    }
}

/// Converts a DRM FourCC directly to the renderer's texture format, without going through
/// Vulkan; see [`wgpu_of_drm`] for the promotion rules.
pub fn fourcc_to_wgpu(drm_format: DrmFourcc) -> (r: Option<TextureFormat>)
    ensures
        r == wgpu_of_drm(drm_format),
{
    match drm_format {
        DrmFourcc::R8 => Some(TextureFormat::R8Unorm),
        DrmFourcc::R16 => Some(TextureFormat::R16Unorm),
        DrmFourcc::Rg88 => Some(TextureFormat::Rg8Unorm),
        DrmFourcc::Rg1616 => Some(TextureFormat::Rg16Unorm),
        DrmFourcc::Abgr1555 | DrmFourcc::Xbgr1555 => Some(TextureFormat::Rgba8Unorm),
        DrmFourcc::Argb1555 | DrmFourcc::Xrgb1555 => Some(TextureFormat::Bgra8Unorm),
        DrmFourcc::Abgr4444 | DrmFourcc::Xbgr4444 => Some(TextureFormat::Rgba8Unorm),
        DrmFourcc::Argb4444 | DrmFourcc::Xrgb4444 => Some(TextureFormat::Bgra8Unorm),
        DrmFourcc::Bgra4444 | DrmFourcc::Bgrx4444 => Some(TextureFormat::Bgra8Unorm),
        DrmFourcc::Bgra5551 | DrmFourcc::Bgrx5551 => Some(TextureFormat::Bgra8Unorm),
        DrmFourcc::Rgba4444 | DrmFourcc::Rgbx4444 => Some(TextureFormat::Rgba8Unorm),
        DrmFourcc::Rgba5551 | DrmFourcc::Rgbx5551 => Some(TextureFormat::Rgba8Unorm),
        DrmFourcc::Bgr565 => Some(TextureFormat::Bgra8Unorm),
        DrmFourcc::Rgb565 => Some(TextureFormat::Rgba8Unorm),
        DrmFourcc::Rgb888 => Some(TextureFormat::Rgba8Unorm),
        DrmFourcc::Bgr888 => Some(TextureFormat::Bgra8Unorm),
        DrmFourcc::Rgba8888 | DrmFourcc::Rgbx8888 => Some(TextureFormat::Rgba8Unorm),
        DrmFourcc::Bgra8888 | DrmFourcc::Bgrx8888 => Some(TextureFormat::Bgra8Unorm),
        DrmFourcc::Argb8888 | DrmFourcc::Xrgb8888 => Some(TextureFormat::Bgra8Unorm),
        DrmFourcc::Abgr8888 | DrmFourcc::Xbgr8888 => Some(TextureFormat::Rgba8Unorm),
        DrmFourcc::Rgb888_a8 => Some(TextureFormat::Rgba8Unorm),
        DrmFourcc::Bgr888_a8 => Some(TextureFormat::Bgra8Unorm),
        DrmFourcc::Argb2101010 | DrmFourcc::Xrgb2101010 => Some(TextureFormat::Rgb10a2Unorm),
        DrmFourcc::Abgr2101010 | DrmFourcc::Xbgr2101010 => Some(TextureFormat::Rgb10a2Unorm),
        _ => None,
    }
}

/// Reading back the code of a FourCC gives that FourCC.
pub proof fn lemma_fourcc_code_round_trip(f: DrmFourcc)
    ensures
        fourcc_of_code(fourcc_code(f)) == Some(f),
{
}

/// A FourCC that some Vulkan format is exported as maps back to that same FourCC:
/// on these FourCCs the DRM/Vulkan mapping is a bijection.
pub proof fn lemma_drm_native_round_trip(f: DrmFourcc)
    requires
        exists|n: i32| #[trigger] drm_of_native(n) == Some(f),
    ensures
        native_of_drm(f) is Some,
        drm_of_native(native_of_drm(f)->Some_0) == Some(f),
{
    let n = choose|n: i32| #[trigger] drm_of_native(n) == Some(f);
    assert(drm_of_native(n) == Some(f));
}

/// A FourCC without a Vulkan format is the export of no Vulkan format either.
pub proof fn lemma_unsupported_fourcc_unmapped(f: DrmFourcc)
    requires
        native_of_drm(f) is None,
    ensures
        forall|n: i32| #[trigger] drm_of_native(n) != Some(f),
{
    if exists|n: i32| #[trigger] drm_of_native(n) == Some(f) {
        lemma_drm_native_round_trip(f);
    }
}

} // verus!
