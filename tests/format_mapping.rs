use ash::vk;
use bevy_dmabuf::format_mapping::{
    drm_to_native, fourcc_to_code, fourcc_to_wgpu, native_to_drm, to_srgb_variant, vulkan_to_wgpu,
};
use bevy_dmabuf::vk_format;
use drm_fourcc::DrmFourcc;
use wgpu::{AstcBlock, AstcChannel, TextureFormat};

#[test]
fn native_round_trip_on_canonical_fourccs() {
    for f in [
        DrmFourcc::Rgba8888,
        DrmFourcc::Bgra8888,
        DrmFourcc::Argb2101010,
        DrmFourcc::Abgr2101010,
        DrmFourcc::Rgb565,
        DrmFourcc::Bgr565,
        DrmFourcc::R8,
        DrmFourcc::R16,
        DrmFourcc::Rg88,
        DrmFourcc::Rg1616,
        DrmFourcc::Rgb888,
        DrmFourcc::Bgr888,
        DrmFourcc::Abgr4444,
        DrmFourcc::Argb1555,
    ] {
        let n = drm_to_native(f).expect("canonical FourCC has a Vulkan format");
        assert_eq!(native_to_drm(n), Some(f));
    }
}

#[test]
fn alpha_variants_share_a_native_format() {
    assert_eq!(drm_to_native(DrmFourcc::Xbgr1555), drm_to_native(DrmFourcc::Abgr1555));
    assert_eq!(drm_to_native(DrmFourcc::Xbgr1555), Some(vk_format::R5G5B5A1_UNORM_PACK16));
    // the shared format is exported under another name, so the round trip does not hold here
    assert_eq!(native_to_drm(vk_format::R5G5B5A1_UNORM_PACK16), Some(DrmFourcc::Rgba5551));
}

#[test]
fn unsupported_fourcc_maps_to_none() {
    assert_eq!(drm_to_native(DrmFourcc::Nv12), None);
    assert_eq!(fourcc_to_wgpu(DrmFourcc::Nv12), None);
    assert_eq!(native_to_drm(vk_format::G8_B8R8_2PLANE_420_UNORM), None);
    assert_eq!(native_to_drm(vk_format::BC7_UNORM_BLOCK), None);
}

#[test]
fn sint_formats_export_as_unorm_fourcc() {
    assert_eq!(native_to_drm(vk_format::R8G8B8A8_SINT), Some(DrmFourcc::Rgba8888));
    assert_eq!(native_to_drm(vk_format::A2R10G10B10_SINT_PACK32), Some(DrmFourcc::Argb2101010));
}

#[test]
fn packed_formats_promote_to_32_bit() {
    assert_eq!(fourcc_to_wgpu(DrmFourcc::Rgb565), Some(TextureFormat::Rgba8Unorm));
    assert_eq!(fourcc_to_wgpu(DrmFourcc::Bgr565), Some(TextureFormat::Bgra8Unorm));
    assert_eq!(fourcc_to_wgpu(DrmFourcc::Argb1555), Some(TextureFormat::Bgra8Unorm));
    assert_eq!(fourcc_to_wgpu(DrmFourcc::Rgbx4444), Some(TextureFormat::Rgba8Unorm));
    assert_eq!(fourcc_to_wgpu(DrmFourcc::Rgb888), Some(TextureFormat::Rgba8Unorm));
    assert_eq!(fourcc_to_wgpu(DrmFourcc::Argb8888), Some(TextureFormat::Bgra8Unorm));
    assert_eq!(fourcc_to_wgpu(DrmFourcc::Xbgr8888), Some(TextureFormat::Rgba8Unorm));
    assert_eq!(fourcc_to_wgpu(DrmFourcc::Xrgb2101010), Some(TextureFormat::Rgb10a2Unorm));
    assert_eq!(fourcc_to_wgpu(DrmFourcc::R16), Some(TextureFormat::R16Unorm));
    assert_eq!(fourcc_to_wgpu(DrmFourcc::Rg88), Some(TextureFormat::Rg8Unorm));
}

#[test]
fn srgb_variants() {
    assert_eq!(to_srgb_variant(vk_format::R8G8B8A8_UNORM), Some(vk_format::R8G8B8A8_SRGB));
    assert_eq!(to_srgb_variant(vk_format::BC7_UNORM_BLOCK), Some(vk_format::BC7_SRGB_BLOCK));
    assert_eq!(to_srgb_variant(vk_format::R16_UNORM), None);
}

#[test]
fn vulkan_to_wgpu_table() {
    assert_eq!(vulkan_to_wgpu(vk_format::R8G8B8A8_SRGB), Some(TextureFormat::Rgba8UnormSrgb));
    assert_eq!(vulkan_to_wgpu(vk_format::B8G8R8A8_UINT), Some(TextureFormat::Bgra8Unorm));
    assert_eq!(vulkan_to_wgpu(vk_format::G8_B8R8_2PLANE_420_UNORM), Some(TextureFormat::NV12));
    assert_eq!(
        vulkan_to_wgpu(vk_format::ASTC_10X8_SRGB_BLOCK),
        Some(TextureFormat::Astc { block: AstcBlock::B10x8, channel: AstcChannel::UnormSrgb })
    );
    assert_eq!(
        vulkan_to_wgpu(vk_format::ASTC_4X4_SFLOAT_BLOCK_EXT),
        Some(TextureFormat::Astc { block: AstcBlock::B4x4, channel: AstcChannel::Hdr })
    );
    assert_eq!(vulkan_to_wgpu(vk_format::R5G6B5_UNORM_PACK16), None);
    assert_eq!(vulkan_to_wgpu(0), None);
}

#[test]
fn vulkan_format_values_match_ash() {
    assert_eq!(vk_format::R8G8B8A8_UNORM, vk::Format::R8G8B8A8_UNORM.as_raw());
    assert_eq!(vk_format::R8G8B8A8_SRGB, vk::Format::R8G8B8A8_SRGB.as_raw());
    assert_eq!(vk_format::B8G8R8A8_UNORM, vk::Format::B8G8R8A8_UNORM.as_raw());
    assert_eq!(vk_format::R5G5B5A1_UNORM_PACK16, vk::Format::R5G5B5A1_UNORM_PACK16.as_raw());
    assert_eq!(vk_format::A4B4G4R4_UNORM_PACK16, vk::Format::A4B4G4R4_UNORM_PACK16.as_raw());
    assert_eq!(vk_format::G8_B8R8_2PLANE_420_UNORM, vk::Format::G8_B8R8_2PLANE_420_UNORM.as_raw());
    assert_eq!(vk_format::ASTC_12X12_SFLOAT_BLOCK_EXT, vk::Format::ASTC_12X12_SFLOAT_BLOCK_EXT.as_raw());
    assert_eq!(vk_format::ETC2_R8G8B8A1_SRGB_BLOCK, vk::Format::ETC2_R8G8B8A1_SRGB_BLOCK.as_raw());
    assert_eq!(vk_format::D32_SFLOAT_S8_UINT, vk::Format::D32_SFLOAT_S8_UINT.as_raw());
}

#[test]
fn fourcc_codes_match_the_enum() {
    for f in [
        DrmFourcc::Abgr1555,
        DrmFourcc::Argb8888,
        DrmFourcc::Big_endian,
        DrmFourcc::Nv12,
        DrmFourcc::Rgba8888,
        DrmFourcc::Xbgr8888,
        DrmFourcc::Yvyu,
    ] {
        assert_eq!(fourcc_to_code(f), f as u32);
    }
    assert_eq!(fourcc_to_code(DrmFourcc::Argb8888), u32::from_le_bytes(*b"AR24"));
}
