use vstd::prelude::*;

use crate::pixels::{rgba_bytes, rgba_height, rgba_width, PixelImage};
use crate::report::StrError;

verus! {

broadcast use vstd::string::to_string_from_display_ensures_for_str;

/// Status code of a successful camera call.
pub const CAMERA_OK: u32 = 0;

/// The stream is up but has no frame yet; worth asking again later.
pub const CAMERA_NO_FRAME_AVAILABLE: u32 = 113;

/// The buffer handed over does not match the frame size. On a size-only
/// query this is how the required size is learned, not a failure.
pub const CAMERA_INVALID_FRAME_BUFFER_SIZE: u32 = 115;

/// How long, from the first attempt, a frame is waited for.
pub const POLL_DEADLINE_MS: u64 = 5000;

/// The pause between two attempts to fetch a frame.
pub const POLL_INTERVAL_MS: u64 = 1000;

/// The camera output variants.
#[derive(Debug, Clone, Copy, PartialEq, Eq, Structural)]
pub enum FrameType {
    Distorted,
    Undistorted,
    MaximumUndistorted,
}

impl FrameType {
    /// The runtime's number for the frame type.
    pub fn code(self) -> (r: u32)
        ensures
            self == FrameType::Distorted ==> r == 0,
            self == FrameType::Undistorted ==> r == 1,
            self == FrameType::MaximumUndistorted ==> r == 2,
    {
        match self {
            FrameType::Distorted => 0,
            FrameType::Undistorted => 1,
            FrameType::MaximumUndistorted => 2,
        }
    }
}

/// A failed camera call: the raw status code and the runtime's name for it.
#[derive(Debug)]
pub struct TrackedCameraError {
    pub code: u32,
    pub name: String,
}

/// The name an error gets: the runtime's own when it could give one.
pub open spec fn camera_error_name(looked_up: Option<Seq<char>>) -> Seq<char> {
    match looked_up {
        Some(n) => n,
        None => "VRTrackedCameraError_UnknownError"@,
    }
}

pub open spec fn opt_view(s: Option<String>) -> Option<Seq<char>> {
    match s {
        Some(n) => Some(n@),
        None => None,
    }
}

/// Turns a camera status code into a result. `looked_up` is the runtime's
/// name for the code, where it gave one.
pub fn check_err(code: u32, looked_up: Option<String>) -> (r: Result<(), TrackedCameraError>)
    ensures
        r is Ok <==> code == CAMERA_OK,
        r matches Err(e) ==> e.code == code && e.name@ == camera_error_name(opt_view(looked_up)),
{
    if code == CAMERA_OK {
        Ok(())
    } else {
        let name = match looked_up {
            Some(n) => n,
            None => "VRTrackedCameraError_UnknownError".to_string(),
        };
        Err(TrackedCameraError { code, name })
    }
}

/// Whether a status of the size-only query leaves the reported size usable.
pub open spec fn size_status_usable(code: u32) -> bool {
    code == CAMERA_OK || code == CAMERA_INVALID_FRAME_BUFFER_SIZE
}

/// Allocates the frame buffer from the answer to the size-only query: a
/// zeroed buffer of exactly the reported size, unless the query failed.
pub fn allocate_frame_buffer(status: u32, reported_size: u32, looked_up: Option<String>) -> (r:
    Result<Vec<u8>, TrackedCameraError>)
    ensures
        r is Ok <==> size_status_usable(status),
        r matches Ok(buf) ==> buf@.len() == reported_size && forall|i: int|
            0 <= i < buf@.len() ==> #[trigger] buf@[i] == 0u8,
        r matches Err(e) ==> e.code == status && e.name@ == camera_error_name(
            opt_view(looked_up),
        ),
{
    if status == CAMERA_OK || status == CAMERA_INVALID_FRAME_BUFFER_SIZE {
        Ok(vec![0u8; reported_size as usize])
    } else {
        match check_err(status, looked_up) {
            Ok(()) => Ok(Vec::new()),
            Err(e) => Err(e),
        }
    }
}

/// Makes every pixel opaque: each fourth byte, the alpha channel, becomes 255.
pub fn force_opaque(buffer: &mut Vec<u8>)
    ensures
        final(buffer)@.len() == old(buffer)@.len(),
        forall|i: int|
            0 <= i < old(buffer)@.len() ==> #[trigger] final(buffer)@[i] == if i % 4 == 3 {
                255u8
            } else {
                old(buffer)@[i]
            },
{
    let n: usize = buffer.len();
    let mut i: usize = 3;
    while i < n
        invariant
            n == old(buffer)@.len(),
            buffer@.len() == n,
            i % 4 == 3,
            forall|k: int|
                0 <= k < n ==> #[trigger] buffer@[k] == if k % 4 == 3 && k < i {
                    255u8
                } else {
                    old(buffer)@[k]
                },
        decreases n + 4 - i,
    {
        buffer.set(i, 255);
        if i > usize::MAX - 4 {
            return;
        }
        i = i + 4;
    }
}

/// The byte that the camera image holds at `i`: the frame's own, but every
/// alpha byte forced to 255.
pub open spec fn opaque_byte(frame: Seq<u8>, i: int) -> u8 {
    if i % 4 == 3 {
        255u8
    } else {
        frame[i]
    }
}

/// Turns a raw camera frame into an opaque RGBA image of the reported size;
/// fails if the frame is shorter than that size asks for, or a row's byte
/// count does not fit in `usize`.
pub fn camera_image(width: u32, height: u32, frame: Vec<u8>) -> (r: Result<PixelImage, StrError>)
    ensures
        r is Ok <==> (width as int * 4 <= usize::MAX && width as int * height as int * 4
            <= frame@.len()),
        r matches Ok(img) ==> {
            &&& rgba_width(img) == width
            &&& rgba_height(img) == height
            &&& rgba_bytes(img).len() == frame@.len()
            &&& forall|i: int|
                0 <= i < frame@.len() ==> #[trigger] rgba_bytes(img)[i] == opaque_byte(frame@, i)
        },
        r matches Err(e) ==> e.0@ == "Failed to parse camera frame"@,
{
    let mut buffer = frame;
    force_opaque(&mut buffer);
    match PixelImage::from_raw(width, height, buffer) {
        Some(img) => Ok(img),
        None => Err(StrError::new("Failed to parse camera frame")),
    }
}

/// What the polling loop does after one attempt to fetch a frame.
#[derive(Debug)]
pub enum PollAction {
    /// The frame and its header are in; stop polling.
    Ready,
    /// No frame yet: wait this long and try again.
    Retry { wait_ms: u64 },
    /// The deadline passed without a frame; the last error is reported.
    TimedOut(TrackedCameraError),
    /// A failure that waiting will not cure.
    Failed(TrackedCameraError),
}

/// Whether the loop tries again after an attempt that ended in `outcome`,
/// `elapsed_ms` after the first attempt began: only for a frame that is not
/// ready yet, and only while the wait ends before the deadline.
pub open spec fn poll_continues(outcome: Result<(), TrackedCameraError>, elapsed_ms: u64) -> bool {
    match outcome {
        Ok(()) => false,
        Err(e) => e.code == CAMERA_NO_FRAME_AVAILABLE && elapsed_ms + POLL_INTERVAL_MS
            < POLL_DEADLINE_MS,
    }
}

/// Decides the next step of the polling loop from the outcome of the latest
/// attempt and the time elapsed since the first one began.
pub fn poll_step(outcome: Result<(), TrackedCameraError>, elapsed_ms: u64) -> (r: PollAction)
    ensures
        r is Retry <==> poll_continues(outcome, elapsed_ms),
        r matches PollAction::Retry { wait_ms } ==> wait_ms == POLL_INTERVAL_MS,
        r is Ready <==> outcome is Ok,
        outcome matches Err(e) ==> {
            if e.code != CAMERA_NO_FRAME_AVAILABLE {
                r == PollAction::Failed(e)
            } else if !poll_continues(outcome, elapsed_ms) {
                r == PollAction::TimedOut(e)
            } else {
                true
            }
        },
{
    match outcome {
        Ok(()) => PollAction::Ready,
        Err(e) => {
            if e.code != CAMERA_NO_FRAME_AVAILABLE {
                PollAction::Failed(e)
            } else if elapsed_ms < POLL_DEADLINE_MS - POLL_INTERVAL_MS {
                PollAction::Retry { wait_ms: POLL_INTERVAL_MS }
            } else {
                PollAction::TimedOut(e)
            }
        },
    }
}

/// Polling is bounded: in any run of attempts in which each retry waited the
/// full interval (attempt `i` began no earlier than `i` intervals after the
/// first) and the loop went on after every attempt but the last, at most
/// deadline / interval attempts were made, and the time spent waiting stays
/// below the deadline.
pub proof fn lemma_poll_bounded(outcomes: Seq<Result<(), TrackedCameraError>>, elapsed: Seq<u64>)
    requires
        outcomes.len() == elapsed.len(),
        outcomes.len() > 0,
        forall|i: int| 0 <= i < elapsed.len() ==> #[trigger] elapsed[i] >= i * POLL_INTERVAL_MS,
        forall|i: int|
            0 <= i < outcomes.len() - 1 ==> #[trigger] poll_continues(outcomes[i], elapsed[i]),
    ensures
        outcomes.len() <= POLL_DEADLINE_MS / POLL_INTERVAL_MS,
        (outcomes.len() - 1) * POLL_INTERVAL_MS < POLL_DEADLINE_MS,
{
    let n = outcomes.len() as int;
    if n >= 2 {
        assert(poll_continues(outcomes[n - 2], elapsed[n - 2]));
        assert(elapsed[n - 2] >= (n - 2) * POLL_INTERVAL_MS);
    }
}

/// The stages of fetching one camera frame.
#[derive(Debug, Clone, Copy, PartialEq, Eq, Structural)]
pub enum AcquisitionState {
    /// Nothing done yet.
    Inactive,
    /// The streaming service is active; the buffer is not sized yet.
    ServiceAcquired,
    /// The buffer is sized; attempts to fetch a frame are under way.
    PollingForFrame,
    /// A frame and its header came in.
    FrameReady,
    /// The deadline passed without a frame.
    TimedOut,
    /// A failure that ended the acquisition.
    HardFailure,
}

/// The state a polling action leads to.
pub open spec fn state_after(action: PollAction) -> AcquisitionState {
    match action {
        PollAction::Ready => AcquisitionState::FrameReady,
        PollAction::Retry { .. } => AcquisitionState::PollingForFrame,
        PollAction::TimedOut(_) => AcquisitionState::TimedOut,
        PollAction::Failed(_) => AcquisitionState::HardFailure,
    }
}

/// The acquisition of one camera frame: service first, then the buffer's
/// size, then polling until a frame, a timeout or a failure.
#[derive(Debug)]
pub struct FrameAcquisition {
    state: AcquisitionState,
}

impl FrameAcquisition {
    /// The current stage.
    pub closed spec fn spec_state(&self) -> AcquisitionState {
        self.state
    }

    /// An acquisition that has not started.
    pub fn new() -> (r: FrameAcquisition)
        ensures
            r.spec_state() == AcquisitionState::Inactive,
    {
        FrameAcquisition { state: AcquisitionState::Inactive }
    }

    /// The current stage.
    pub fn state(&self) -> (r: AcquisitionState)
        ensures
            r == self.spec_state(),
    {
        self.state
    }

    /// Takes in the outcome of activating the streaming service; a failure
    /// there ends the acquisition, with no retry.
    pub fn service_activated(&mut self, activated: Result<(), TrackedCameraError>) -> (r: Result<
        (),
        TrackedCameraError,
    >)
        requires
            old(self).spec_state() == AcquisitionState::Inactive,
        ensures
            r == activated,
            final(self).spec_state() == if activated is Ok {
                AcquisitionState::ServiceAcquired
            } else {
                AcquisitionState::HardFailure
            },
    {
        self.state = if activated.is_ok() {
            AcquisitionState::ServiceAcquired
        } else {
            AcquisitionState::HardFailure
        };
        activated
    }

    /// Sizes the frame buffer, once, from the answer to the size-only query
    /// (see `allocate_frame_buffer`); a failed query ends the acquisition.
    pub fn size_buffer(&mut self, status: u32, reported_size: u32, looked_up: Option<String>) -> (r:
        Result<Vec<u8>, TrackedCameraError>)
        requires
            old(self).spec_state() == AcquisitionState::ServiceAcquired,
        ensures
            r is Ok <==> size_status_usable(status),
            r matches Ok(buf) ==> buf@.len() == reported_size && forall|i: int|
                0 <= i < buf@.len() ==> #[trigger] buf@[i] == 0u8,
            r matches Err(e) ==> e.code == status && e.name@ == camera_error_name(
                opt_view(looked_up),
            ),
            final(self).spec_state() == if r is Ok {
                AcquisitionState::PollingForFrame
            } else {
                AcquisitionState::HardFailure
            },
    {
        let r = allocate_frame_buffer(status, reported_size, looked_up);
        self.state = if r.is_ok() {
            AcquisitionState::PollingForFrame
        } else {
            AcquisitionState::HardFailure
        };
        r
    }

    /// Takes in the outcome of one attempt to fetch a frame, `elapsed_ms`
    /// after the first attempt began, and decides what comes next (see
    /// `poll_step`).
    pub fn attempt_done(&mut self, outcome: Result<(), TrackedCameraError>, elapsed_ms: u64) -> (r:
        PollAction)
        requires
            old(self).spec_state() == AcquisitionState::PollingForFrame,
        ensures
            r is Retry <==> poll_continues(outcome, elapsed_ms),
            r matches PollAction::Retry { wait_ms } ==> wait_ms == POLL_INTERVAL_MS,
            r is Ready <==> outcome is Ok,
            outcome matches Err(e) ==> {
                if e.code != CAMERA_NO_FRAME_AVAILABLE {
                    r == PollAction::Failed(e)
                } else if !poll_continues(outcome, elapsed_ms) {
                    r == PollAction::TimedOut(e)
                } else {
                    true
                }
            },
            final(self).spec_state() == state_after(r),
    {
        let r = poll_step(outcome, elapsed_ms);
        self.state = match &r {
            PollAction::Ready => AcquisitionState::FrameReady,
            PollAction::Retry { .. } => AcquisitionState::PollingForFrame,
            PollAction::TimedOut(_) => AcquisitionState::TimedOut,
            PollAction::Failed(_) => AcquisitionState::HardFailure,
        };
        r
    }
}

} // verus!
