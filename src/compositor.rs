use vstd::prelude::*;

verus! {

broadcast use vstd::string::to_string_from_display_ensures_for_str;

/// Status code of a successful compositor call.
pub const COMPOSITOR_OK: u32 = 0;

/// The compositor's failure kinds, as numbered by the runtime's interface.
#[derive(Debug, Clone, Copy, PartialEq, Eq, Structural)]
pub enum CompositorErrorKind {
    RequestFailed,
    IncompatibleVersion,
    DoNotHaveFocus,
    InvalidTexture,
    IsNotSceneApplication,
    TextureIsOnWrongDevice,
    TextureUsesUnsupportedFormat,
    SharedTexturesNotSupported,
    IndexOutOfRange,
    AlreadySubmitted,
    InvalidBounds,
    /// Any code this library does not know, kept for forward compatibility.
    UnknownError,
}

/// The failure kind that a non-success compositor status code stands for.
pub open spec fn compositor_kind_of(code: u32) -> CompositorErrorKind {
    if code == 1 {
        CompositorErrorKind::RequestFailed
    } else if code == 100 {
        CompositorErrorKind::IncompatibleVersion
    } else if code == 101 {
        CompositorErrorKind::DoNotHaveFocus
    } else if code == 102 {
        CompositorErrorKind::InvalidTexture
    } else if code == 103 {
        CompositorErrorKind::IsNotSceneApplication
    } else if code == 104 {
        CompositorErrorKind::TextureIsOnWrongDevice
    } else if code == 105 {
        CompositorErrorKind::TextureUsesUnsupportedFormat
    } else if code == 106 {
        CompositorErrorKind::SharedTexturesNotSupported
    } else if code == 107 {
        CompositorErrorKind::IndexOutOfRange
    } else if code == 108 {
        CompositorErrorKind::AlreadySubmitted
    } else if code == 109 {
        CompositorErrorKind::InvalidBounds
    } else {
        CompositorErrorKind::UnknownError
    }
}

impl CompositorErrorKind {
    /// Maps a non-success status code to its kind; unknown codes never fail.
    pub fn from_code(code: u32) -> (r: CompositorErrorKind)
        ensures
            r == compositor_kind_of(code),
    {
        match code {
            1 => CompositorErrorKind::RequestFailed,
            100 => CompositorErrorKind::IncompatibleVersion,
            101 => CompositorErrorKind::DoNotHaveFocus,
            102 => CompositorErrorKind::InvalidTexture,
            103 => CompositorErrorKind::IsNotSceneApplication,
            104 => CompositorErrorKind::TextureIsOnWrongDevice,
            105 => CompositorErrorKind::TextureUsesUnsupportedFormat,
            106 => CompositorErrorKind::SharedTexturesNotSupported,
            107 => CompositorErrorKind::IndexOutOfRange,
            108 => CompositorErrorKind::AlreadySubmitted,
            109 => CompositorErrorKind::InvalidBounds,
            _ => CompositorErrorKind::UnknownError,
        }
    }

    /// The symbolic name of the kind.
    pub open spec fn spec_name(self) -> Seq<char> {
        match self {
            CompositorErrorKind::RequestFailed => "VRCompositorError_RequestFailed"@,
            CompositorErrorKind::IncompatibleVersion => "VRCompositorError_IncompatibleVersion"@,
            CompositorErrorKind::DoNotHaveFocus => "VRCompositorError_DoNotHaveFocus"@,
            CompositorErrorKind::InvalidTexture => "VRCompositorError_InvalidTexture"@,
            CompositorErrorKind::IsNotSceneApplication => "VRCompositorError_IsNotSceneApplication"@,
            CompositorErrorKind::TextureIsOnWrongDevice => "VRCompositorError_TextureIsOnWrongDevice"@,
            CompositorErrorKind::TextureUsesUnsupportedFormat => "VRCompositorError_TextureUsesUnsupportedFormat"@,
            CompositorErrorKind::SharedTexturesNotSupported => "VRCompositorError_SharedTexturesNotSupported"@,
            CompositorErrorKind::IndexOutOfRange => "VRCompositorError_IndexOutOfRange"@,
            CompositorErrorKind::AlreadySubmitted => "VRCompositorError_AlreadySubmitted"@,
            CompositorErrorKind::InvalidBounds => "VRCompositorError_InvalidBounds"@,
            CompositorErrorKind::UnknownError => "VRCompositorError_UnknownError"@,
        }
    }

    /// The symbolic name of the kind.
    pub fn name(&self) -> (r: String)
        ensures
            r@ == self.spec_name(),
    {
        let s: &str = match self {
            CompositorErrorKind::RequestFailed => "VRCompositorError_RequestFailed",
            CompositorErrorKind::IncompatibleVersion => "VRCompositorError_IncompatibleVersion",
            CompositorErrorKind::DoNotHaveFocus => "VRCompositorError_DoNotHaveFocus",
            CompositorErrorKind::InvalidTexture => "VRCompositorError_InvalidTexture",
            CompositorErrorKind::IsNotSceneApplication => "VRCompositorError_IsNotSceneApplication",
            CompositorErrorKind::TextureIsOnWrongDevice => "VRCompositorError_TextureIsOnWrongDevice",
            CompositorErrorKind::TextureUsesUnsupportedFormat => "VRCompositorError_TextureUsesUnsupportedFormat",
            CompositorErrorKind::SharedTexturesNotSupported => "VRCompositorError_SharedTexturesNotSupported",
            CompositorErrorKind::IndexOutOfRange => "VRCompositorError_IndexOutOfRange",
            CompositorErrorKind::AlreadySubmitted => "VRCompositorError_AlreadySubmitted",
            CompositorErrorKind::InvalidBounds => "VRCompositorError_InvalidBounds",
            CompositorErrorKind::UnknownError => "VRCompositorError_UnknownError",
        };
        s.to_string()
    }
}

/// A failed compositor call: the raw status code and its kind.
#[derive(Debug, Clone, Copy, PartialEq, Eq, Structural)]
pub struct CompositorError {
    pub code: u32,
    pub kind: CompositorErrorKind,
}

impl CompositorError {
    /// The symbolic name of the error.
    pub fn name(&self) -> (r: String)
        ensures
            r@ == self.kind.spec_name(),
    {
        self.kind.name()
    }
}

/// Turns a compositor status code into a result: success only for the
/// success code, otherwise an error that keeps the code and names its kind.
pub fn check_err(code: u32) -> (r: Result<(), CompositorError>)
    ensures
        code == COMPOSITOR_OK ==> r is Ok,
        code != COMPOSITOR_OK ==> r == Err::<(), CompositorError>(
            CompositorError { code, kind: compositor_kind_of(code) },
        ),
{
    if code == COMPOSITOR_OK {
        Ok(())
    } else {
        Err(CompositorError { code, kind: CompositorErrorKind::from_code(code) })
    }
}

/// One eye of the headset.
#[derive(Debug, Clone, Copy, PartialEq, Eq, Structural)]
pub enum VREye {
    Left,
    Right,
}

impl VREye {
    /// The runtime's index for the eye.
    pub fn code(self) -> (r: u32)
        ensures
            self == VREye::Left ==> r == 0,
            self == VREye::Right ==> r == 1,
    {
        match self {
            VREye::Left => 0,
            VREye::Right => 1,
        }
    }
}

} // verus!
