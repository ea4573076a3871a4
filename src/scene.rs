use vstd::prelude::*;

verus! {

/// The frame rate the presentation starts with.
pub const DEFAULT_TARGET_FPS: u32 = 60;

/// A command for the presentation layer, which the simulation never sees.
pub enum Event {
    Close(CloseEvent),
    ToggleScene(ToggleSceneEvent),
    SetTargetFps(SetTargetFpsEvent),
    LoadModel(LoadModelEvent),
    GetFps,
}

pub struct CloseEvent {}

pub struct ToggleSceneEvent {}

pub struct SetTargetFpsEvent {
    pub target_fps: u32,
}

pub struct LoadModelEvent {
    pub path: String,
}

/// Which scene the presentation shows: the rendered one, or a stand-in
/// that draws nothing.
#[derive(PartialEq, Eq, Structural, Clone, Copy, Debug)]
pub enum SceneKind {
    Display,
    Shim,
}

/// What the presentation loop does after a command.
#[derive(Debug, PartialEq, Eq)]
pub enum SceneAction {
    /// Keep running.
    Continue,
    /// Stop the presentation loop.
    Close,
    /// Show the current target frame rate.
    ShowFps(u32),
    /// Load the model at this path into the scene.
    LoadModel(String),
}

/// The presentation's own settings: the scene shown and the frame rate.
pub struct SceneControl {
    pub scene: SceneKind,
    pub target_fps: u32,
}

impl SceneControl {
    pub open spec fn same_settings(self, other: SceneControl) -> bool {
        self.scene == other.scene && self.target_fps == other.target_fps
    }

    /// Shows the rendered scene if `create_display`, else the stand-in.
    pub fn new(create_display: bool) -> (r: SceneControl)
        ensures
            r.scene == (if create_display {
                SceneKind::Display
            } else {
                SceneKind::Shim
            }),
            r.target_fps == DEFAULT_TARGET_FPS,
    {
        let scene = if create_display {
            SceneKind::Display
        } else {
            SceneKind::Shim
        };
        SceneControl { scene, target_fps: DEFAULT_TARGET_FPS }
    }

    /// Switches between the rendered scene and the stand-in.
    pub fn toggle_state(&mut self)
        ensures
            final(self).scene != old(self).scene,
            final(self).target_fps == old(self).target_fps,
    {
        self.scene = match self.scene {
            SceneKind::Display => SceneKind::Shim,
            SceneKind::Shim => SceneKind::Display,
        };
    }

    pub fn set_target_fps(&mut self, target_fps: u32)
        ensures
            final(self).target_fps == target_fps,
            final(self).scene == old(self).scene,
    {
        self.target_fps = target_fps;
    }

    /// Applies a presentation command and says what the loop does next.
    pub fn handle_custom_event(&mut self, event: Event) -> (r: SceneAction)
        ensures
            match event {
                Event::Close(_) => r == SceneAction::Close && final(self).same_settings(*old(self)),
                Event::ToggleScene(_) => {
                    &&& r == SceneAction::Continue
                    &&& final(self).scene != old(self).scene
                    &&& final(self).target_fps == old(self).target_fps
                },
                Event::SetTargetFps(e) => {
                    &&& r == SceneAction::Continue
                    &&& final(self).scene == old(self).scene
                    &&& final(self).target_fps == e.target_fps
                },
                Event::GetFps => {
                    &&& r == SceneAction::ShowFps(old(self).target_fps)
                    &&& final(self).same_settings(*old(self))
                },
                Event::LoadModel(e) => {
                    &&& r matches SceneAction::LoadModel(p) && p@ == e.path@
                    &&& final(self).same_settings(*old(self))
                },
            },
    {
        match event {
            Event::Close(_) => SceneAction::Close,
            Event::ToggleScene(_) => {
                self.toggle_state();
                SceneAction::Continue
            },
            Event::SetTargetFps(e) => {
                self.set_target_fps(e.target_fps);
                SceneAction::Continue
            },
            Event::GetFps => SceneAction::ShowFps(self.target_fps),
            Event::LoadModel(e) => SceneAction::LoadModel(e.path),
        }
    }
}

} // verus!
