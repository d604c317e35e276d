use vstd::prelude::*;

verus! {

/// How the player's view of the world currently takes input.
#[derive(Clone, Copy, Debug, PartialEq, Eq, Structural, Hash)]
pub enum CameraState {
    /// The cursor is captured and the camera moves freely.
    CursorLocked,
    /// The cursor is free and the camera stands still; buildings can be picked.
    CursorUnlocked,
    /// Everything is disabled while a panel (inventory, market, ...) is open.
    Frozen,
    /// A purchased building is waiting to be placed on a tile.
    ConstructPreview,
}

/// The state reached by the mouse-lock key.
pub open spec fn toggled(s: CameraState) -> CameraState {
    if s == CameraState::CursorLocked {
        CameraState::CursorUnlocked
    } else {
        CameraState::CursorLocked
    }
}

/// Decides the state that the mouse-lock key switches to.
pub fn toggle_camera_state(state: CameraState) -> (r: CameraState)
    ensures
        r == toggled(state),
{
    if state == CameraState::CursorLocked {
        CameraState::CursorUnlocked
    } else {
        CameraState::CursorLocked
    }
}

/// Marks the player's camera.
pub struct GameCamera;

/// The camera state saved when a panel opens, restored when it closes.
pub struct PreviousCameraState(pub Option<CameraState>);

/// The state a closing panel returns to: the saved one, or the default locked cursor
/// when none was saved.
pub open spec fn restored(p: Option<CameraState>) -> CameraState {
    match p {
        Some(s) => s,
        None => CameraState::CursorLocked,
    }
}

impl PreviousCameraState {
    pub fn restore(&self) -> (r: CameraState)
        ensures
            r == restored(self.0),
    {
        match self.0 {
            Some(s) => s,
            None => CameraState::CursorLocked,
        }
    }
}

/// A request to switch the camera to another state.
pub struct ChangeCameraStateEvent(pub CameraState);

/// What a camera state asks of the window and of picking.
pub struct CameraEffects {
    pub state: CameraState,
    /// Whether the cursor is captured and hidden.
    pub cursor_locked: bool,
    /// Whether clicks pick buildings and tiles.
    pub picking: bool,
}

/// Whether the cursor is captured in a camera state.
pub open spec fn cursor_locked_in(s: CameraState) -> bool {
    s == CameraState::CursorLocked
}

/// Whether picking is on in a camera state.
pub open spec fn picking_in(s: CameraState) -> bool {
    s == CameraState::CursorUnlocked || s == CameraState::ConstructPreview
}

/// The effects of switching to the requested camera state.
pub fn on_change_camera_state(event: &ChangeCameraStateEvent) -> (r: CameraEffects)
    ensures
        r.state == event.0,
        r.cursor_locked == cursor_locked_in(event.0),
        r.picking == picking_in(event.0),
{
    let state = event.0;
    match state {
        CameraState::CursorLocked => CameraEffects { state, cursor_locked: true, picking: false },
        CameraState::CursorUnlocked => CameraEffects { state, cursor_locked: false, picking: true },
        CameraState::Frozen => CameraEffects { state, cursor_locked: false, picking: false },
        CameraState::ConstructPreview => CameraEffects { state, cursor_locked: false, picking: true },
    }
}

/// The window cursor: captured or free, shown or hidden.
pub struct Cursor {
    pub locked: bool,
    pub visible: bool,
}

/// Captures and hides the cursor, or frees and shows it.
pub fn set_cursor_lock(cursor: &mut Cursor, lock: bool)
    ensures
        final(cursor).locked == lock,
        final(cursor).visible == !lock,
{
    cursor.locked = lock;
    cursor.visible = !lock;
}

} // verus!
