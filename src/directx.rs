use vstd::prelude::*;

verus! {

/// A failed graphics-API call, with its negative status code.
#[derive(Debug, Clone, Copy, PartialEq, Eq, Structural)]
pub struct D3DError(pub i32);

impl D3DError {
    /// The status code of the failed call.
    pub fn code(&self) -> (r: i32)
        ensures
            r == self.0,
    {
        self.0
    }
}

/// Turns a graphics-API status code into a result: negative codes are
/// failures, all others success.
pub fn check_err(hr: i32) -> (r: Result<(), D3DError>)
    ensures
        r is Ok <==> hr >= 0,
        r matches Err(e) ==> e == D3DError(hr),
{
    if hr < 0 {
        Err(D3DError(hr))
    } else {
        Ok(())
    }
}

/// One release call of the device context's teardown.
#[derive(Debug, Clone, Copy, PartialEq, Eq, Structural)]
pub enum DeviceRelease {
    /// The immediate command context.
    Context,
    /// The device itself.
    Device,
}

/// Ownership of the device and its command context: both live, or both gone.
#[derive(Debug)]
pub struct DeviceOwnership {
    live: bool,
}

impl DeviceOwnership {
    /// Both the device and its context are owned.
    pub closed spec fn is_live(&self) -> bool {
        self.live
    }

    /// Ownership of a freshly created device and context.
    pub fn created() -> (r: DeviceOwnership)
        ensures
            r.is_live(),
    {
        DeviceOwnership { live: true }
    }

    /// The release calls still owed, in order: context before device, and
    /// nothing once released.
    pub fn release(&mut self) -> (steps: Vec<DeviceRelease>)
        ensures
            old(self).is_live() ==> steps@ == seq![DeviceRelease::Context, DeviceRelease::Device],
            !old(self).is_live() ==> steps@.len() == 0,
            !final(self).is_live(),
    {
        let mut steps: Vec<DeviceRelease> = Vec::new();
        if self.live {
            steps.push(DeviceRelease::Context);
            steps.push(DeviceRelease::Device);
            assert(steps@ =~= seq![DeviceRelease::Context, DeviceRelease::Device]);
        }
        self.live = false;
        steps
    }
}

} // verus!
