use bevy_dmabuf::capability::FormatCapabilities;
use bevy_dmabuf::dmatex::{Dmatex, DmatexPlane, Resolution};
use bevy_dmabuf::import::{plan_import, DmatexUsage, ImportError};
use bevy_dmabuf::registry::{DmaImage, DropCallback, ImportedDmatexs};
use drm_fourcc::DrmFourcc;
use wgpu::TextureFormat;

fn desc(format: DrmFourcc) -> Dmatex {
    Dmatex {
        planes: vec![DmatexPlane { dmabuf_fd: 3, modifier: 0, offset: 0, stride: 2048 }],
        res: Resolution { x: 512, y: 512 },
        format: format as u32,
        flip_y: false,
        srgb: false,
    }
}

#[test]
fn submit_then_drain_then_resolve() {
    let mut reg: ImportedDmatexs<u32, &'static str> = ImportedDmatexs::new();
    let (placeholder, replaced) = reg.set(5, desc(DrmFourcc::Abgr8888), DmatexUsage::Sampling, Some(1));
    assert!(replaced.is_none());
    assert_eq!((placeholder.width, placeholder.height), (512, 512));
    assert_eq!(placeholder.format, TextureFormat::Rgba8Unorm);
    assert!(reg.get_imported(5).is_none());
    let mut drained = reg.drain(&vec![5]);
    assert!(drained.discarded.is_empty());
    assert_eq!(drained.to_import.len(), 1);
    assert_eq!(drained.to_import[0].id, 5);
    assert_eq!(drained.to_import[0].buf.res, Resolution { x: 512, y: 512 });
    assert_eq!(drained.to_import[0].on_drop.take(), Some(1));
    assert!(reg.insert_imported_dmatex(5, "texture").is_none());
    assert_eq!(reg.get_imported(5), Some(&"texture"));
    assert_eq!(reg.imported_ids(), vec![5]);
}

#[test]
fn second_drain_imports_nothing() {
    let mut reg: ImportedDmatexs<(), u8> = ImportedDmatexs::new();
    reg.set(1, desc(DrmFourcc::Abgr8888), DmatexUsage::Sampling, None);
    reg.set(2, desc(DrmFourcc::Argb8888), DmatexUsage::Sampling, None);
    assert_eq!(reg.drain(&vec![1, 2]).to_import.len(), 2);
    reg.insert_imported_dmatex(1, 10);
    let again = reg.drain(&vec![1, 2]);
    assert!(again.to_import.is_empty() && again.discarded.is_empty());
    assert_eq!(reg.get_imported(1), Some(&10));
}

#[test]
fn dead_handles_hand_back_their_submissions() {
    let mut reg: ImportedDmatexs<u8, u8> = ImportedDmatexs::new();
    reg.set(1, desc(DrmFourcc::Abgr8888), DmatexUsage::Sampling, Some(7));
    reg.set(3, desc(DrmFourcc::Abgr8888), DmatexUsage::Sampling, None);
    reg.insert_imported_dmatex(2, 20);
    let mut drained = reg.drain(&vec![3]);
    assert_eq!(drained.to_import.len(), 1);
    assert_eq!(drained.to_import[0].id, 3);
    assert_eq!(drained.discarded.len(), 1);
    assert_eq!(drained.discarded[0].id, 1);
    assert_eq!(drained.discarded[0].buf.planes[0].dmabuf_fd, 3);
    assert_eq!(drained.discarded[0].on_drop.take(), Some(7));
    assert!(reg.get_imported(2).is_none());
    assert!(reg.imported_ids().is_empty());
}

#[test]
fn unmapped_format_keeps_placeholder() {
    let mut reg: ImportedDmatexs<(), u8> = ImportedDmatexs::new();
    let (placeholder, _) = reg.set(9, desc(DrmFourcc::Nv12), DmatexUsage::Sampling, None);
    assert_eq!((placeholder.width, placeholder.height), (512, 512));
    assert_eq!(placeholder.format, TextureFormat::Rgba8Unorm);
    let drained = reg.drain(&vec![9]);
    assert_eq!(drained.to_import.len(), 1);
    let caps = FormatCapabilities { image_supported: true, modifiers: vec![] };
    assert_eq!(plan_import(&drained.to_import[0].buf, &caps).unwrap_err(), ImportError::VulkanIncompatibleFormat);
    assert!(reg.get_imported(9).is_none());
    assert!(reg.drain(&vec![9]).to_import.is_empty());
}

#[test]
fn resubmission_hands_back_the_replaced_entry() {
    let mut reg: ImportedDmatexs<u8, u8> = ImportedDmatexs::new();
    reg.insert_imported_dmatex(4, 1);
    let (_, replaced) = reg.set(4, desc(DrmFourcc::Abgr8888), DmatexUsage::Sampling, Some(2));
    assert!(matches!(replaced, Some(DmaImage::Imported(1))));
    assert!(reg.get_imported(4).is_none());
    let (_, replaced) = reg.set(4, desc(DrmFourcc::Argb8888), DmatexUsage::Sampling, None);
    match replaced {
        Some(DmaImage::UnImported(buf, mut cb, _)) => {
            assert_eq!(buf.format, DrmFourcc::Abgr8888 as u32);
            assert_eq!(cb.take(), Some(2));
        }
        _ => panic!("the waiting submission was not handed back"),
    }
    assert_eq!(reg.drain(&vec![4]).to_import.len(), 1);
}

#[test]
fn drop_callback_runs_once() {
    let mut cb = DropCallback(Some(7u8));
    assert_eq!(cb.take(), Some(7));
    assert_eq!(cb.take(), None);
}
