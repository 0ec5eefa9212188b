use bevy_dmabuf::barrier::{queue_transfer, ImageQueueTransfer, QUEUE_FAMILY_EXTERNAL};
use bevy_dmabuf::capability::{FormatCapabilities, ModifierProperties, FORMAT_FEATURE_DISJOINT};
use bevy_dmabuf::device::{device_type_rank, pick_physical_device};
use bevy_dmabuf::dmabuf::{DmabufBuffer, DmabufPlane, Resolution as OldResolution, ZbusRawFd};
use bevy_dmabuf::dmatex::Resolution;
use bevy_dmabuf::export::{export_descriptor, plan_export, ExportError, ExportFd};
use bevy_dmabuf::import::{plan_import, MemoryLayout};
use bevy_dmabuf::ledger::{Cleanup, ImportLedger};
use bevy_dmabuf::vk_format;
use drm_fourcc::DrmFourcc;
use wgpu::TextureFormat;

#[test]
fn failed_import_closes_untouched_descriptors_once() {
    let mut ledger = ImportLedger::new(3, 3);
    ledger.image_created();
    ledger.memory_imported(0, 0);
    // the second memory import failed: descriptors 1 and 2 are still the engine's
    let steps = ledger.unwind();
    assert_eq!(
        steps,
        vec![Cleanup::FreeMemory(0), Cleanup::DestroyImage, Cleanup::CloseFd(1), Cleanup::CloseFd(2)]
    );
    assert!(ledger.unwind().is_empty());
}

#[test]
fn failure_before_image_closes_every_descriptor() {
    let mut ledger = ImportLedger::new(2, 1);
    assert_eq!(ledger.unwind(), vec![Cleanup::CloseFd(0), Cleanup::CloseFd(1)]);
}

#[test]
fn successful_combined_import_closes_spare_descriptors() {
    let mut ledger = ImportLedger::new(2, 1);
    ledger.image_created();
    ledger.memory_imported(0, 0);
    assert_eq!(ledger.finish(), vec![Cleanup::CloseFd(1)]);
    assert_eq!(ledger.unwind(), vec![Cleanup::FreeMemory(0), Cleanup::DestroyImage]);
}

#[test]
fn export_then_import_round_trip() {
    let caps = FormatCapabilities {
        image_supported: true,
        modifiers: vec![ModifierProperties { modifier: 0, plane_count: 1, tiling_features: 0 }],
    };
    let plan = plan_export(DrmFourcc::Argb8888, &caps).unwrap();
    assert_eq!(plan.vk_format, vk_format::B8G8R8A8_UNORM);
    assert_eq!(plan.memory, MemoryLayout::Combined);
    assert_eq!(plan.fd_count(), 1);
    let d = export_descriptor(&plan, DrmFourcc::Argb8888, Resolution { x: 640, y: 480 }, vec![11], &vec![(0, 2560)]);
    assert_eq!(d.format, DrmFourcc::Argb8888 as u32);
    let other = FormatCapabilities {
        image_supported: true,
        modifiers: vec![
            ModifierProperties { modifier: 5, plane_count: 2, tiling_features: 0 },
            ModifierProperties { modifier: 0, plane_count: 1, tiling_features: 0 },
        ],
    };
    let imported = plan_import(&d, &other).unwrap();
    assert_eq!((imported.width, imported.height), (640, 480));
    assert_eq!(imported.vk_format, plan.vk_format);
    assert_eq!(imported.wgpu_format, TextureFormat::Bgra8Unorm);
    assert_eq!(imported.planes[0].stride, 2560);
}

#[test]
fn export_errors_and_disjoint_fd_count() {
    let empty = FormatCapabilities { image_supported: true, modifiers: vec![] };
    assert_eq!(plan_export(DrmFourcc::Argb8888, &empty).unwrap_err(), ExportError::NotSupportedByDevice);
    assert_eq!(plan_export(DrmFourcc::Nv12, &empty).unwrap_err(), ExportError::UnsupportedFormat);
    let no_planes = FormatCapabilities {
        image_supported: true,
        modifiers: vec![ModifierProperties { modifier: 1, plane_count: 0, tiling_features: 0 }],
    };
    assert_eq!(plan_export(DrmFourcc::Argb8888, &no_planes).unwrap_err(), ExportError::NotSupportedByDevice);
    let disjoint = FormatCapabilities {
        image_supported: true,
        modifiers: vec![ModifierProperties { modifier: 9, plane_count: 3, tiling_features: FORMAT_FEATURE_DISJOINT }],
    };
    let plan = plan_export(DrmFourcc::Abgr8888, &disjoint).unwrap();
    assert_eq!(plan.memory, MemoryLayout::Disjoint);
    assert_eq!(plan.fd_count(), 3);
    assert_eq!(plan.fd_source(2), ExportFd::FromAllocation(2));
    let combined = FormatCapabilities {
        image_supported: true,
        modifiers: vec![ModifierProperties { modifier: 9, plane_count: 2, tiling_features: 0 }],
    };
    let plan = plan_export(DrmFourcc::Abgr8888, &combined).unwrap();
    assert_eq!(plan.fd_source(0), ExportFd::FromAllocation(0));
    assert_eq!(plan.fd_source(1), ExportFd::DuplicateOfFirst);
    let d = export_descriptor(&plan, DrmFourcc::Abgr8888, Resolution { x: 8, y: 8 }, vec![20, 21], &vec![(0, 32), (256, 32)]);
    assert_eq!(d.planes.len(), 2);
    assert_eq!(d.planes[1].dmabuf_fd, 21);
    assert_eq!(d.planes[1].offset, 256);
}

#[test]
fn barrier_queue_families() {
    let a = queue_transfer(ImageQueueTransfer::Acquire, 2);
    assert_eq!((a.src_queue_family, a.dst_queue_family), (QUEUE_FAMILY_EXTERNAL, 2));
    let r = queue_transfer(ImageQueueTransfer::Release, 2);
    assert_eq!((r.src_queue_family, r.dst_queue_family), (2, QUEUE_FAMILY_EXTERNAL));
    assert_eq!(QUEUE_FAMILY_EXTERNAL, ash::vk::QUEUE_FAMILY_EXTERNAL);
}

#[test]
fn physical_device_preference() {
    assert_eq!(pick_physical_device(&vec![4, 1, 2, 2]), Some(2));
    assert_eq!(pick_physical_device(&vec![0, 3]), Some(0));
    assert_eq!(pick_physical_device(&vec![]), None);
    assert_eq!(device_type_rank(ash::vk::PhysicalDeviceType::DISCRETE_GPU.as_raw()), 1);
    assert_eq!(device_type_rank(ash::vk::PhysicalDeviceType::CPU.as_raw()), 5);
    assert_eq!(device_type_rank(77), 6);
}

#[test]
fn whole_buffer_descriptor_converts_per_plane() {
    let old = DmabufBuffer {
        planes: vec![
            DmabufPlane { dmabuf_fd: ZbusRawFd::from(4), offset: 0, stride: 1024 },
            DmabufPlane { dmabuf_fd: ZbusRawFd(5), offset: 4096, stride: 512 },
        ],
        res: OldResolution { x: 256, y: 16 },
        modifier: 77,
        format: DrmFourcc::Nv12 as u32,
        flip_y: true,
    };
    assert_eq!(old.planes[0].dmabuf_fd.as_raw_fd(), 4);
    let new = old.into_dmatex();
    assert_eq!(new.planes.len(), 2);
    assert_eq!(new.planes[1].dmabuf_fd, 5);
    assert_eq!(new.planes[1].modifier, 77);
    assert_eq!(new.planes[1].offset, 4096);
    assert_eq!(new.res, Resolution { x: 256, y: 16 });
    assert!(new.flip_y && !new.srgb);
}
