//! UI cameras: where on the screen each is anchored, the order they render
//! in, the render layers they show, and the font the UI uses.

use vstd::prelude::*;

verus! {

/// The screen positions a UI camera can be anchored at.
#[derive(Debug, Clone, Copy, PartialEq, Eq, Hash, Structural)]
pub enum UiCameras {
    TopLeft,
    TopMiddle,
    TopRight,
    MiddleLeft,
    Center,
    MiddleRight,
    BottomLeft,
    BottomMiddle,
    BottomRight,
}

/// Every anchor, in declaration order.
pub open spec fn all_ui_cameras() -> Seq<UiCameras> {
    seq![
        UiCameras::TopLeft,
        UiCameras::TopMiddle,
        UiCameras::TopRight,
        UiCameras::MiddleLeft,
        UiCameras::Center,
        UiCameras::MiddleRight,
        UiCameras::BottomLeft,
        UiCameras::BottomMiddle,
        UiCameras::BottomRight,
    ]
}

/// How many half screen widths and half screen heights a camera anchored at
/// `v` is translated by: leftwards anchors look right of the centre (`+1`),
/// top anchors look below it (`-1`).
pub open spec fn anchor_factors(v: UiCameras) -> (int, int) {
    match v {
        UiCameras::TopLeft => (1, -1),
        UiCameras::TopMiddle => (0, -1),
        UiCameras::TopRight => (-1, -1),
        UiCameras::MiddleLeft => (1, 0),
        UiCameras::Center => (0, 0),
        UiCameras::MiddleRight => (-1, 0),
        UiCameras::BottomLeft => (1, 1),
        UiCameras::BottomMiddle => (0, 1),
        UiCameras::BottomRight => (-1, 1),
    }
}

impl UiCameras {
    /// Every anchor, in declaration order.
    pub fn iter() -> (res: Vec<UiCameras>)
        ensures
            res@ == all_ui_cameras(),
    {
        let v = vec![
            UiCameras::TopLeft,
            UiCameras::TopMiddle,
            UiCameras::TopRight,
            UiCameras::MiddleLeft,
            UiCameras::Center,
            UiCameras::MiddleRight,
            UiCameras::BottomLeft,
            UiCameras::BottomMiddle,
            UiCameras::BottomRight,
        ];
        assert(v@ =~= all_ui_cameras());
        v
    }
}

/// Component of UI cameras, which are 2D.
#[derive(Debug, Clone, Copy, PartialEq, Eq, Structural)]
pub struct UiCamera {
    pub variant: UiCameras,
}

impl UiCamera {
    /// The factors by which the half screen width and the half screen height
    /// are multiplied to give this camera's translation.
    pub fn get_camera_transform(&self) -> (res: (i8, i8))
        ensures
            (res.0 as int, res.1 as int) == anchor_factors(self.variant),
    {
        match self.variant {
            UiCameras::TopLeft => (1, -1),
            UiCameras::TopMiddle => (0, -1),
            UiCameras::TopRight => (-1, -1),
            UiCameras::MiddleLeft => (1, 0),
            UiCameras::Center => (0, 0),
            UiCameras::MiddleRight => (-1, 0),
            UiCameras::BottomLeft => (1, 1),
            UiCameras::BottomMiddle => (0, 1),
            UiCameras::BottomRight => (-1, 1),
        }
    }
}

/// Spawning of the UI cameras.
pub struct UiCamerasPlugin;

impl UiCamerasPlugin {
    /// The UI cameras spawned at start-up: one for every anchor, in
    /// declaration order.
    pub fn spawn_ui_cameras() -> (res: Vec<UiCamera>)
        ensures
            res.len() == all_ui_cameras().len(),
            forall|i: int| 0 <= i < res.len() ==> (#[trigger] res@[i]).variant == all_ui_cameras()[i],
    {
        let variants = UiCameras::iter();
        let mut cams: Vec<UiCamera> = Vec::new();
        let mut i: usize = 0;
        while i < variants.len()
            invariant
                variants@ == all_ui_cameras(),
                i <= variants.len(),
                cams.len() == i,
                forall|k: int| 0 <= k < i ==> (#[trigger] cams@[k]).variant == variants@[k],
            decreases variants.len() - i,
        {
            cams.push(UiCamera { variant: variants[i] });
            i = i + 1;
        }
        cams
    }
}

/// Checks that a pointer event was seen through the expected UI camera.
pub struct CorrectCamera;

impl CorrectCamera {
    /// `found` is the anchor of the UI camera the event's camera entity is,
    /// or `None` when that entity is no UI camera. The event counts only when
    /// it is a UI camera with the expected anchor.
    pub fn confirm(found: Option<UiCameras>, expected_type: UiCameras) -> (res: bool)
        ensures
            res == (found == Some(expected_type)),
    {
        match found {
            Some(variant) => variant == expected_type,
            None => false,
        }
    }
}

/// The UI camera the start screen's buttons are shown by.
pub open spec fn start_screen_camera() -> UiCameras {
    UiCameras::TopLeft
}

/// What a pointer moving over or leaving a start-screen button does.
#[derive(Debug, Clone, Copy, PartialEq, Eq, Structural)]
pub enum ButtonPointerResponse {
    /// The pointer event came through another camera: nothing happens.
    OtherCamera,
    /// The button's children are not known: a warning is logged.
    MissingTarget,
    /// None of the button's children spawns particles: a warning is logged.
    MissingParticleSpawner,
    /// The particle spawner that is the button's child at `child` is switched
    /// on (`active`) or off.
    SetParticles { child: usize, active: bool },
}

/// A button of the start screen.
pub struct GameButtonBundle;

impl GameButtonBundle {
    /// How a button answers a pointer event: `hit_camera` is the anchor of the
    /// UI camera the pointer hit through (`None` for no UI camera);
    /// `children_spawn_particles` tells, for each child of the button, whether
    /// it spawns particles (`None` when the button was not found); `hovering`
    /// is whether the pointer moved over the button rather than left it. The
    /// first particle-spawning child is switched on while hovering and off
    /// when the pointer leaves.
    pub fn pointer_response(
        hit_camera: Option<UiCameras>,
        children_spawn_particles: Option<&Vec<bool>>,
        hovering: bool,
    ) -> (res: ButtonPointerResponse)
        ensures
            hit_camera != Some(start_screen_camera()) ==> res == ButtonPointerResponse::OtherCamera,
            hit_camera == Some(start_screen_camera()) ==> match children_spawn_particles {
                None => res == ButtonPointerResponse::MissingTarget,
                Some(children) => if exists|i: int| 0 <= i < children.len() && #[trigger] children@[i] {
                    res matches ButtonPointerResponse::SetParticles { child, active } && active == hovering
                        && child < children.len() && children@[child as int] && forall|j: int|
                        0 <= j < child ==> !#[trigger] children@[j]
                } else {
                    res == ButtonPointerResponse::MissingParticleSpawner
                },
            },
    {
        if !CorrectCamera::confirm(hit_camera, UiCameras::TopLeft) {
            return ButtonPointerResponse::OtherCamera;
        }
        match children_spawn_particles {
            None => ButtonPointerResponse::MissingTarget,
            Some(children) => {
                let mut i: usize = 0;
                while i < children.len()
                    invariant
                        i <= children.len(),
                        hit_camera == Some(start_screen_camera()),
                        children_spawn_particles == Some(children),
                        forall|j: int| 0 <= j < i ==> !#[trigger] children@[j],
                    decreases children.len() - i,
                {
                    if children[i] {
                        return ButtonPointerResponse::SetParticles { child: i, active: hovering };
                    }
                    i = i + 1;
                }
                ButtonPointerResponse::MissingParticleSpawner
            },
        }
    }
}

/// Handles distribution of the camera orders.
#[derive(Debug, Clone, Copy, PartialEq, Eq, Structural)]
pub enum GlobalCameraOrders {
    TopLeft,
    TopRight,
    BottomLeft,
    BottomRight,
    Center,
}

/// The render order of each camera, also the render layer it shows.
pub open spec fn camera_order(o: GlobalCameraOrders) -> int {
    match o {
        GlobalCameraOrders::TopLeft => 1,
        GlobalCameraOrders::TopRight => 2,
        GlobalCameraOrders::BottomLeft => 3,
        GlobalCameraOrders::BottomRight => 4,
        GlobalCameraOrders::Center => 5,
    }
}

impl GlobalCameraOrders {
    /// The order this camera renders in.
    pub fn order(self) -> (res: isize)
        ensures
            res == camera_order(self),
    {
        match self {
            GlobalCameraOrders::TopLeft => 1,
            GlobalCameraOrders::TopRight => 2,
            GlobalCameraOrders::BottomLeft => 3,
            GlobalCameraOrders::BottomRight => 4,
            GlobalCameraOrders::Center => 5,
        }
    }
}

/// Naming of all render layers used within the project
#[derive(Debug, Clone, Copy, PartialEq, Eq, Structural)]
pub enum GlobalRenderLayers {
    /// Only showing entities relevant to UI, based on the camera intended to render them
    Ui(GlobalCameraOrders),
}

impl GlobalRenderLayers {
    /// The single render layer this names.
    pub fn layer(self) -> (res: u8)
        ensures
            match self {
                GlobalRenderLayers::Ui(o) => res == camera_order(o),
            },
    {
        match self {
            GlobalRenderLayers::Ui(cam_order) => match cam_order {
                GlobalCameraOrders::TopLeft => 1,
                GlobalCameraOrders::TopRight => 2,
                GlobalCameraOrders::BottomLeft => 3,
                GlobalCameraOrders::BottomRight => 4,
                GlobalCameraOrders::Center => 5,
            },
        }
    }
}

/// The fonts of the game.
#[derive(Debug, Clone, Copy, PartialEq, Eq, Structural)]
pub enum GlobalFont {
    Default,
}

impl GlobalFont {
    /// Where the font is found among the game's assets.
    pub fn asset_path(&self) -> (res: &'static str)
        ensures
            res@ == "fonts/FiraMono-Medium.ttf"@,
    {
        match self {
            GlobalFont::Default => "fonts/FiraMono-Medium.ttf",
        }
    }
}


/// Each UI camera shows the render layer numbered as its render order, and
/// different cameras have different orders; different anchors put their
/// cameras at different places.
pub proof fn lemma_ui_layout_distinct(a: GlobalCameraOrders, b: GlobalCameraOrders, u: UiCameras, v: UiCameras)
    ensures
        1 <= camera_order(a) <= 5,
        a != b ==> camera_order(a) != camera_order(b),
        u != v ==> anchor_factors(u) != anchor_factors(v),
{
}

/// An anchor's horizontal factor is fixed by its column and its vertical
/// factor by its row: left anchors look right of the centre (`+1`), middle
/// ones at it (`0`), right ones left of it (`-1`); top anchors look below the
/// centre (`-1`), middle ones at it (`0`), bottom ones above it (`+1`).
pub proof fn lemma_anchor_by_row_and_column(u: UiCameras)
    ensures
        (u is TopLeft || u is MiddleLeft || u is BottomLeft) ==> anchor_factors(u).0 == 1,
        (u is TopMiddle || u is Center || u is BottomMiddle) ==> anchor_factors(u).0 == 0,
        (u is TopRight || u is MiddleRight || u is BottomRight) ==> anchor_factors(u).0 == -1,
        (u is TopLeft || u is TopMiddle || u is TopRight) ==> anchor_factors(u).1 == -1,
        (u is MiddleLeft || u is Center || u is MiddleRight) ==> anchor_factors(u).1 == 0,
        (u is BottomLeft || u is BottomMiddle || u is BottomRight) ==> anchor_factors(u).1 == 1,
{
}

/// The UI cameras render in reading order of their corners, top-left first,
/// then top-right, bottom-left and bottom-right, and the centre camera last,
/// on top of the others.
pub proof fn lemma_camera_order_by_corner(o: GlobalCameraOrders)
    ensures
        camera_order(GlobalCameraOrders::TopLeft) < camera_order(GlobalCameraOrders::TopRight),
        camera_order(GlobalCameraOrders::TopRight) < camera_order(GlobalCameraOrders::BottomLeft),
        camera_order(GlobalCameraOrders::BottomLeft) < camera_order(GlobalCameraOrders::BottomRight),
        o != GlobalCameraOrders::Center ==> camera_order(o) < camera_order(GlobalCameraOrders::Center),
        camera_order(GlobalCameraOrders::TopLeft) == 1,
        camera_order(GlobalCameraOrders::Center) == 5,
{
}

} // verus!
