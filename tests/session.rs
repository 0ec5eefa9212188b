use bevy_dmabuf::capability::{FormatCapabilities, ModifierProperties, FORMAT_FEATURE_DISJOINT};
use bevy_dmabuf::dmatex::{Dmatex, DmatexPlane, Resolution};
use bevy_dmabuf::import::{plan_import, ImportError, ImportPlan};
use bevy_dmabuf::ledger::Cleanup;
use bevy_dmabuf::session::{ImportAction, ImportSession};
use drm_fourcc::DrmFourcc;

fn plan(planes: u32, features: u32) -> ImportPlan {
    let buf = Dmatex {
        planes: (0..planes)
            .map(|i| DmatexPlane { dmabuf_fd: 10 + i as i32, modifier: 3, offset: 0, stride: 64 })
            .collect(),
        res: Resolution { x: 16, y: 16 },
        format: DrmFourcc::Abgr8888 as u32,
        flip_y: false,
        srgb: false,
    };
    let caps = FormatCapabilities {
        image_supported: true,
        modifiers: vec![ModifierProperties { modifier: 3, plane_count: planes, tiling_features: features }],
    };
    plan_import(&buf, &caps).unwrap()
}

#[test]
fn disjoint_session_imports_each_plane() {
    let mut s = ImportSession::new(&plan(2, FORMAT_FEATURE_DISJOINT));
    assert_eq!(s.action(), ImportAction::CreateImage);
    s.report(Ok(()));
    assert_eq!(s.action(), ImportAction::ImportMemory { allocation: 0, plane: 0 });
    s.report(Ok(()));
    assert_eq!(s.action(), ImportAction::ImportMemory { allocation: 1, plane: 1 });
    s.report(Ok(()));
    assert_eq!(s.action(), ImportAction::BindMemory);
    s.report(Ok(()));
    assert_eq!(s.action(), ImportAction::Done);
    let (steps, mut ledger) = s.end().unwrap();
    assert!(steps.is_empty());
    assert_eq!(
        ledger.unwind(),
        vec![Cleanup::FreeMemory(0), Cleanup::FreeMemory(1), Cleanup::DestroyImage]
    );
}

#[test]
fn combined_session_closes_spare_descriptors() {
    let mut s = ImportSession::new(&plan(2, 0));
    s.report(Ok(()));
    assert_eq!(s.action(), ImportAction::ImportMemory { allocation: 0, plane: 0 });
    s.report(Ok(()));
    assert_eq!(s.action(), ImportAction::BindMemory);
    s.report(Ok(()));
    let (steps, _ledger) = s.end().unwrap();
    assert_eq!(steps, vec![Cleanup::CloseFd(1)]);
}

#[test]
fn failed_allocation_unwinds_session() {
    let mut s = ImportSession::new(&plan(2, FORMAT_FEATURE_DISJOINT));
    s.report(Ok(()));
    s.report(Ok(()));
    s.report(Err(ImportError::NoValidMemoryTypes));
    assert_eq!(s.action(), ImportAction::Failed(ImportError::NoValidMemoryTypes));
    s.report(Ok(()));
    assert_eq!(s.action(), ImportAction::Failed(ImportError::NoValidMemoryTypes));
    let steps = s.end().unwrap_err();
    assert_eq!(steps, vec![Cleanup::FreeMemory(0), Cleanup::DestroyImage, Cleanup::CloseFd(1)]);
}

#[test]
fn failed_image_creation_closes_all() {
    let mut s = ImportSession::new(&plan(1, 0));
    s.report(Err(ImportError::Vulkan(-2)));
    assert_eq!(s.end().unwrap_err(), vec![Cleanup::CloseFd(0)]);
}
