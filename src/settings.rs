use vstd::prelude::*;

verus! {

broadcast use vstd::string::to_string_from_display_ensures_for_str;

/// Status code of a successful settings call.
pub const SETTINGS_OK: u32 = 0;

/// A failed settings call: the raw status code and the runtime's name for it.
#[derive(Debug)]
pub struct SettingsError {
    pub code: u32,
    pub name: String,
}

/// The name an error gets: the runtime's own when it could give one.
pub open spec fn settings_error_name(looked_up: Option<Seq<char>>) -> Seq<char> {
    match looked_up {
        Some(n) => n,
        None => "VRSettingsError_UnknownError"@,
    }
}

/// Turns a settings status code into a result. `looked_up` is the runtime's
/// name for the code, where it gave one.
pub fn check_err(code: u32, looked_up: Option<String>) -> (r: Result<(), SettingsError>)
    ensures
        r is Ok <==> code == SETTINGS_OK,
        r matches Err(e) ==> e.code == code && e.name@ == settings_error_name(
            match looked_up {
                Some(n) => Some(n@),
                None => None,
            },
        ),
{
    if code == SETTINGS_OK {
        Ok(())
    } else {
        let name = match looked_up {
            Some(n) => n,
            None => "VRSettingsError_UnknownError".to_string(),
        };
        Err(SettingsError { code, name })
    }
}

/// The room-view mode that shows the camera image flat.
pub const ROOM_VIEW_2D: i32 = 1;

/// The room-view style that shows the camera image opaque.
pub const ROOM_VIEW_STYLE_OPAQUE: i32 = 4;

/// Which camera settings must be written before a capture.
#[derive(Debug, Clone, Copy, PartialEq, Eq, Structural)]
pub struct CameraSettingsPlan {
    /// The camera must be switched on.
    pub enable_camera: bool,
    /// The room view must be set to the flat mode.
    pub set_room_view: bool,
    /// The room-view style must be set to opaque.
    pub set_room_view_style: bool,
}

/// Decides, from the current values, which camera settings to change: the
/// camera on, the room view flat, its style opaque; nothing already so.
pub fn camera_settings_plan(camera_enabled: bool, room_view: i32, room_view_style: i32) -> (r:
    CameraSettingsPlan)
    ensures
        r.enable_camera == !camera_enabled,
        r.set_room_view == (room_view != ROOM_VIEW_2D),
        r.set_room_view_style == (room_view_style != ROOM_VIEW_STYLE_OPAQUE),
{
    CameraSettingsPlan {
        enable_camera: !camera_enabled,
        set_room_view: room_view != ROOM_VIEW_2D,
        set_room_view_style: room_view_style != ROOM_VIEW_STYLE_OPAQUE,
    }
}

} // verus!
