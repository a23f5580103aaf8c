use space_craft::cameras::{BlockEntity, CameraConfiguration, CameraEntity, CamerasConfig};
use space_craft::ui::{
    CorrectCamera, GlobalCameraOrders, GlobalFont, GlobalRenderLayers, UiCamera, UiCameras, UiCamerasPlugin,
};

#[test]
fn camera_configuration_lifecycle() {
    let mut config = CamerasConfig::default();
    assert!(config.requires_fallback());
    assert_eq!(config.camera_to_update(), None);

    config.fallback_spawned(CameraEntity(10));
    assert!(!config.requires_fallback());
    assert_eq!(config.clean_any_fallback_cam(), Some(CameraEntity(10)));

    let despawn = config.set_primary_camera(BlockEntity(20), CameraEntity(30));
    assert_eq!(despawn, Some(CameraEntity(10)));
    assert_eq!(config.camera_to_update(), Some((CameraEntity(30), BlockEntity(20), true)));

    // a later switch has no fallback left to despawn
    let despawn = config.set_primary_camera(BlockEntity(21), CameraEntity(31));
    assert_eq!(despawn, None);
    assert!(!config.requires_fallback());
}

#[test]
fn orbiting_allowed_by_default() {
    assert!(CameraConfiguration::default().can_orbit());
    assert!(!CameraConfiguration { allow_orbit: false }.can_orbit());
}

#[test]
fn ui_camera_anchors() {
    assert_eq!(UiCamera { variant: UiCameras::TopLeft }.get_camera_transform(), (1, -1));
    assert_eq!(UiCamera { variant: UiCameras::Center }.get_camera_transform(), (0, 0));
    assert_eq!(UiCamera { variant: UiCameras::BottomRight }.get_camera_transform(), (-1, 1));
    assert_eq!(UiCamera { variant: UiCameras::TopMiddle }.get_camera_transform(), (0, -1));
    let cams = UiCamerasPlugin::spawn_ui_cameras();
    assert_eq!(cams.len(), 9);
    assert_eq!(cams[0].variant, UiCameras::TopLeft);
    assert_eq!(cams[8].variant, UiCameras::BottomRight);
}

#[test]
fn correct_camera() {
    assert!(CorrectCamera::confirm(Some(UiCameras::TopLeft), UiCameras::TopLeft));
    assert!(!CorrectCamera::confirm(Some(UiCameras::Center), UiCameras::TopLeft));
    assert!(!CorrectCamera::confirm(None, UiCameras::TopLeft));
}

#[test]
fn camera_orders_and_layers() {
    assert_eq!(GlobalCameraOrders::TopLeft.order(), 1);
    assert_eq!(GlobalCameraOrders::Center.order(), 5);
    assert_eq!(GlobalRenderLayers::Ui(GlobalCameraOrders::BottomLeft).layer(), 3);
    for o in [
        GlobalCameraOrders::TopLeft,
        GlobalCameraOrders::TopRight,
        GlobalCameraOrders::BottomLeft,
        GlobalCameraOrders::BottomRight,
        GlobalCameraOrders::Center,
    ] {
        assert_eq!(GlobalRenderLayers::Ui(o).layer() as isize, o.order());
    }
    assert_eq!(GlobalFont::Default.asset_path(), "fonts/FiraMono-Medium.ttf");
}
