use bevy_dmabuf::capability::{FormatCapabilities, ModifierProperties, FORMAT_FEATURE_DISJOINT};
use bevy_dmabuf::dmatex::{Dmatex, DmatexPlane, Resolution};
use bevy_dmabuf::import::{
    get_imported_descriptor, image_format, image_format_for, placeholder_descriptor, plan_import, renderer_format, select_memory_type,
    ImportError, MemoryLayout, MEMORY_PROPERTY_PROTECTED,
};
use bevy_dmabuf::vk_format;
use drm_fourcc::{DrmFourcc, UnrecognizedFourcc};
use wgpu::TextureFormat;

const LINEAR: u64 = 0;
const TILED: u64 = 0x0100_0000_0000_0001;

fn plane(fd: i32, modifier: u64) -> DmatexPlane {
    DmatexPlane { dmabuf_fd: fd, modifier, offset: 0, stride: 2048 }
}

fn buf(format: DrmFourcc, planes: Vec<DmatexPlane>) -> Dmatex {
    Dmatex { planes, res: Resolution { x: 512, y: 512 }, format: format as u32, flip_y: false, srgb: false }
}

fn caps(mods: Vec<ModifierProperties>) -> FormatCapabilities {
    FormatCapabilities { image_supported: true, modifiers: mods }
}

fn one_plane(modifier: u64) -> ModifierProperties {
    ModifierProperties { modifier, plane_count: 1, tiling_features: 0 }
}

#[test]
fn supported_pair_plans_combined_import() {
    let b = buf(DrmFourcc::Abgr8888, vec![plane(7, LINEAR)]);
    let plan = plan_import(&b, &caps(vec![one_plane(TILED), one_plane(LINEAR)])).unwrap();
    assert_eq!(plan.vk_format, vk_format::R8G8B8A8_UNORM);
    assert_eq!(plan.wgpu_format, TextureFormat::Rgba8Unorm);
    assert_eq!((plan.width, plan.height), (512, 512));
    assert_eq!(plan.memory, MemoryLayout::Combined);
    assert_eq!(plan.explicit_modifier, Some(LINEAR));
    assert_eq!(plan.allocations(), 1);
    assert_eq!(plan.planes[0].stride, 2048);
}

#[test]
fn unsupported_modifier_is_invalid() {
    let b = buf(DrmFourcc::Abgr8888, vec![plane(7, TILED)]);
    let r = plan_import(&b, &caps(vec![one_plane(LINEAR)]));
    assert_eq!(r.unwrap_err(), ImportError::ModifierInvalid);
}

#[test]
fn mixed_modifiers_with_one_unreported() {
    let b = buf(DrmFourcc::Abgr8888, vec![plane(7, LINEAR), plane(8, TILED)]);
    let l = ModifierProperties { modifier: LINEAR, plane_count: 2, tiling_features: 0 };
    let r = plan_import(&b, &caps(vec![l]));
    assert_eq!(r.unwrap_err(), ImportError::ModifierInvalid);
}

#[test]
fn plane_count_mismatch() {
    let b = buf(DrmFourcc::Abgr8888, vec![plane(7, LINEAR), plane(8, LINEAR)]);
    let r = plan_import(&b, &caps(vec![one_plane(LINEAR)]));
    assert_eq!(r.unwrap_err(), ImportError::IncorrectNumberOfPlanes);
}

#[test]
fn no_planes() {
    let b = buf(DrmFourcc::Abgr8888, vec![]);
    let r = plan_import(&b, &caps(vec![one_plane(LINEAR)]));
    assert_eq!(r.unwrap_err(), ImportError::NoPlanes);
}

#[test]
fn unknown_code_is_unrecognized() {
    let mut b = buf(DrmFourcc::Abgr8888, vec![plane(7, LINEAR)]);
    b.format = 42;
    let r = plan_import(&b, &caps(vec![one_plane(LINEAR)]));
    assert_eq!(r.unwrap_err(), ImportError::UnrecognizedFourcc(UnrecognizedFourcc(42)));
}

#[test]
fn yuv_format_has_no_vulkan_format() {
    let b = buf(DrmFourcc::Nv12, vec![plane(7, LINEAR)]);
    let r = plan_import(&b, &caps(vec![one_plane(LINEAR)]));
    assert_eq!(r.unwrap_err(), ImportError::VulkanIncompatibleFormat);
}

#[test]
fn device_without_dmabuf_images() {
    let b = buf(DrmFourcc::Abgr8888, vec![plane(7, LINEAR)]);
    let c = FormatCapabilities { image_supported: false, modifiers: vec![one_plane(LINEAR)] };
    assert_eq!(plan_import(&b, &c).unwrap_err(), ImportError::NotSupportedByDevice);
}

#[test]
fn format_checks_come_before_modifier_checks() {
    let b = buf(DrmFourcc::Nv12, vec![plane(7, TILED)]);
    let c = FormatCapabilities { image_supported: false, modifiers: vec![] };
    assert_eq!(plan_import(&b, &c).unwrap_err(), ImportError::VulkanIncompatibleFormat);
}

#[test]
fn disjoint_modifier_plans_one_allocation_per_plane() {
    let b = buf(DrmFourcc::Abgr8888, vec![plane(7, TILED), plane(8, TILED)]);
    let m = ModifierProperties { modifier: TILED, plane_count: 2, tiling_features: FORMAT_FEATURE_DISJOINT };
    let plan = plan_import(&b, &caps(vec![m])).unwrap();
    assert_eq!(plan.memory, MemoryLayout::Disjoint);
    assert_eq!(plan.allocations(), 2);
    assert_eq!(plan.plane_of_allocation(1), 1);
}

#[test]
fn mixed_modifiers_use_the_modifier_list() {
    let b = buf(DrmFourcc::Abgr8888, vec![plane(7, TILED), plane(8, LINEAR)]);
    let t = ModifierProperties { modifier: TILED, plane_count: 2, tiling_features: 0 };
    let l = ModifierProperties { modifier: LINEAR, plane_count: 2, tiling_features: 0 };
    let plan = plan_import(&b, &caps(vec![t, l])).unwrap();
    assert_eq!(plan.explicit_modifier, None);
    assert_eq!(plan.memory, MemoryLayout::Combined);
    assert_eq!(plan.plane_of_allocation(0), 0);
}

#[test]
fn srgb_request_picks_srgb_twin() {
    assert_eq!(image_format(DrmFourcc::Abgr8888, true), Some(vk_format::R8G8B8A8_SRGB));
    assert_eq!(renderer_format(DrmFourcc::Abgr8888, true), Some(TextureFormat::Rgba8UnormSrgb));
    // R8 has an sRGB Vulkan format but no sRGB renderer format
    assert_eq!(image_format(DrmFourcc::R8, true), Some(vk_format::R8_SRGB));
    assert_eq!(renderer_format(DrmFourcc::R8, true), Some(TextureFormat::R8Unorm));
    // 24-bit RGB: sRGB natively and, once promoted, in the renderer
    assert_eq!(image_format(DrmFourcc::Rgb888, true), Some(vk_format::R8G8B8_SRGB));
    assert_eq!(renderer_format(DrmFourcc::Rgb888, true), Some(TextureFormat::Rgba8UnormSrgb));
    // packed 16-bit: no sRGB Vulkan format, but the promoted renderer format has one
    assert_eq!(image_format(DrmFourcc::Rgb565, true), Some(vk_format::R5G6B5_UNORM_PACK16));
    assert_eq!(renderer_format(DrmFourcc::Rgb565, true), Some(TextureFormat::Rgba8UnormSrgb));
    assert_eq!(renderer_format(DrmFourcc::Rgb565, false), Some(TextureFormat::Rgba8Unorm));
    let mut b = buf(DrmFourcc::Argb8888, vec![plane(7, LINEAR)]);
    b.srgb = true;
    let plan = plan_import(&b, &caps(vec![one_plane(LINEAR)])).unwrap();
    assert_eq!(plan.vk_format, vk_format::B8G8R8A8_SRGB);
    assert_eq!(plan.wgpu_format, TextureFormat::Bgra8UnormSrgb);
}

#[test]
fn srgb_import_of_24_bit_rgb() {
    let mut b = buf(DrmFourcc::Rgb888, vec![plane(7, LINEAR)]);
    b.srgb = true;
    let plan = plan_import(&b, &caps(vec![one_plane(LINEAR)])).unwrap();
    assert_eq!(plan.vk_format, vk_format::R8G8B8_SRGB);
    assert_eq!(plan.wgpu_format, TextureFormat::Rgba8UnormSrgb);
}

#[test]
fn placeholder_falls_back_for_unmapped_formats() {
    let n = buf(DrmFourcc::Nv12, vec![plane(7, LINEAR)]);
    let d = placeholder_descriptor(&n);
    assert_eq!((d.width, d.height, d.format), (512, 512, TextureFormat::Rgba8Unorm));
    let mut u = buf(DrmFourcc::Bgra8888, vec![]);
    u.format = 0;
    assert_eq!(placeholder_descriptor(&u).format, TextureFormat::Rgba8Unorm);
    let mut s = buf(DrmFourcc::Bgra8888, vec![]);
    s.srgb = true;
    assert_eq!(placeholder_descriptor(&s).format, TextureFormat::Bgra8UnormSrgb);
}

#[test]
fn imported_descriptor_errors() {
    let b = buf(DrmFourcc::Rgb565, vec![plane(7, LINEAR)]);
    let d = get_imported_descriptor(&b).unwrap();
    assert_eq!((d.width, d.height, d.format), (512, 512, TextureFormat::Rgba8Unorm));
    let n = buf(DrmFourcc::Nv12, vec![plane(7, LINEAR)]);
    assert_eq!(get_imported_descriptor(&n).unwrap_err(), ImportError::WgpuIncompatibleFormat);
    let mut u = buf(DrmFourcc::Rgb565, vec![]);
    u.format = 0;
    assert_eq!(get_imported_descriptor(&u).unwrap_err(), ImportError::UnrecognizedFourcc(UnrecognizedFourcc(0)));
}

#[test]
fn memory_type_skips_protected_and_disallowed() {
    const DEVICE_LOCAL: u32 = 0x1;
    let flags = vec![DEVICE_LOCAL | MEMORY_PROPERTY_PROTECTED, DEVICE_LOCAL, DEVICE_LOCAL];
    assert_eq!(select_memory_type(0b111, &flags), Ok(1));
    assert_eq!(select_memory_type(0b100, &flags), Ok(2));
    assert_eq!(select_memory_type(0b001, &flags), Err(ImportError::NoValidMemoryTypes));
    assert_eq!(select_memory_type(0b1000, &flags), Err(ImportError::NoValidMemoryTypes));
    assert_eq!(select_memory_type(u32::MAX, &vec![]), Err(ImportError::NoValidMemoryTypes));
}

#[test]
fn image_format_for_descriptor() {
    let mut b = buf(DrmFourcc::Xrgb8888, vec![plane(7, LINEAR)]);
    assert_eq!(image_format_for(&b), Ok(vk_format::B8G8R8A8_UNORM));
    b.srgb = true;
    assert_eq!(image_format_for(&b), Ok(vk_format::B8G8R8A8_SRGB));
    b.format = DrmFourcc::Yuyv as u32;
    assert_eq!(image_format_for(&b), Err(ImportError::VulkanIncompatibleFormat));
    b.format = 1;
    assert_eq!(image_format_for(&b), Err(ImportError::UnrecognizedFourcc(UnrecognizedFourcc(1))));
}
